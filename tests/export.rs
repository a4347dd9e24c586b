use comment_extractor::command::Command;
use comment_extractor::error::{Error, RunError};
use comment_extractor::export::{export_video, take_page};
use comment_extractor::json::{page_from_json, page_token, text_or_empty, Json};
use comment_extractor::model::{Comment, Page, SheetRow, Thread};
use comment_extractor::paginate::{first_page_url, next_page_url, Paginator};
use comment_extractor::sheet::{column_header, Sheet, Workbook};

fn to_json(v: &serde_json::Value) -> Json {
    match v {
        serde_json::Value::Null => Json::Null,
        serde_json::Value::String(s) => Json::Text(s.clone()),
        serde_json::Value::Array(a) => Json::Array(a.iter().map(to_json).collect()),
        serde_json::Value::Object(m) => {
            Json::Object(m.iter().map(|(k, v)| (k.clone(), to_json(v))).collect())
        }
        _ => Json::Other,
    }
}

fn parse(text: &str) -> Json {
    to_json(&serde_json::from_str::<serde_json::Value>(text).unwrap())
}

fn comment(tag: &str) -> Comment {
    Comment {
        etag: format!("{tag}-etag"),
        author_display_name: format!("{tag}-author"),
        author_channel_url: format!("{tag}-url"),
        text_display: format!("{tag}-text"),
        published_at: format!("{tag}-published"),
        updated_at: format!("{tag}-updated"),
    }
}

fn thread(tag: &str, replies: usize) -> Thread {
    Thread {
        comment: comment(tag),
        replies: (0..replies).map(|i| comment(&format!("{tag}-reply{i}"))).collect(),
    }
}

fn page(threads: Vec<Thread>, cursor: Option<&str>) -> Page {
    Page { threads, next_page_token: cursor.map(|c| c.to_string()) }
}

#[test]
fn two_videos_one_with_replies_one_empty() {
    let command = Command::new("key".to_string(), vec!["a".to_string(), "b".to_string()]);
    let responses = vec![vec![page(vec![thread("t", 2)], None)], vec![page(vec![], None)]];
    let workbook = command.export_all(&responses).unwrap();
    assert_eq!(workbook.sheets.len(), 2);
    assert_eq!(workbook.sheets[0].name, "a");
    assert_eq!(
        workbook.sheets[0].rows,
        vec![
            SheetRow { comment: Some(comment("t")), reply: Some(comment("t-reply0")) },
            SheetRow { comment: None, reply: Some(comment("t-reply1")) },
        ]
    );
    assert_eq!(workbook.sheets[0].next_row(), 3);
    assert_eq!(workbook.sheets[1].name, "b");
    assert!(workbook.sheets[1].rows.is_empty());
    assert_eq!(workbook.sheets[1].next_row(), 1);
}

#[test]
fn two_pages_make_two_rows_and_two_fetches() {
    let mut workbook = Workbook::new();
    let responses = vec![page(vec![thread("p1", 0)], Some("next")), page(vec![thread("p2", 1)], None)];
    let fetches = export_video(&mut workbook, "key", "v", &responses).unwrap();
    assert_eq!(fetches, 2);
    assert_eq!(workbook.next_row(), 3);
    assert_eq!(
        workbook.sheets[0].rows,
        vec![
            SheetRow { comment: Some(comment("p1")), reply: None },
            SheetRow { comment: Some(comment("p2")), reply: Some(comment("p2-reply0")) },
        ]
    );
}

#[test]
fn pagination_stops_at_first_page_without_cursor() {
    let mut workbook = Workbook::new();
    let responses = vec![
        page(vec![thread("x", 0)], Some("c1")),
        page(vec![thread("y", 0)], None),
        page(vec![thread("z", 0)], Some("c3")),
    ];
    let fetches = export_video(&mut workbook, "key", "v", &responses).unwrap();
    assert_eq!(fetches, 2);
    assert_eq!(workbook.sheets[0].rows.len(), 2);
}

#[test]
fn missing_response_is_a_request_failure() {
    let mut workbook = Workbook::new();
    let responses = vec![page(vec![thread("x", 0)], Some("c1"))];
    let r = export_video(&mut workbook, "key", "v", &responses);
    assert!(matches!(r, Err(RunError::GetRequest { .. })));
    let r = export_video(&mut workbook, "key", "w", &vec![]);
    assert!(matches!(r, Err(RunError::GetRequest { .. })));
}

#[test]
fn video_without_comments_has_header_only() {
    let mut workbook = Workbook::new();
    let responses = vec![page(vec![], Some("c")), page(vec![], None)];
    let fetches = export_video(&mut workbook, "key", "v", &responses).unwrap();
    assert_eq!(fetches, 2);
    assert!(workbook.sheets[0].rows.is_empty());
    assert_eq!(workbook.next_row(), 1);
}

#[test]
fn thread_with_replies_takes_one_row_per_reply() {
    let mut sheet = Sheet::new("v");
    let next = sheet.write_comment_rows(1, &page(vec![thread("t", 3)], None)).unwrap();
    assert_eq!(next, 4);
    assert_eq!(sheet.rows.len(), 3);
    assert_eq!(sheet.rows[0].comment, Some(comment("t")));
    assert_eq!(sheet.rows[1].comment, None);
    assert_eq!(sheet.rows[2].comment, None);
    for i in 0..3 {
        assert_eq!(sheet.rows[i].reply, Some(comment(&format!("t-reply{i}"))));
    }
}

#[test]
fn thread_without_replies_takes_one_row() {
    let mut sheet = Sheet::new("v");
    let next = sheet.write_comment_rows(1, &page(vec![thread("t", 0)], None)).unwrap();
    assert_eq!(next, 2);
    assert_eq!(sheet.rows, vec![SheetRow { comment: Some(comment("t")), reply: None }]);
}

#[test]
fn row_cursor_advances_by_page_rows() {
    let mut sheet = Sheet::new("v");
    let first = page(vec![thread("a", 0), thread("b", 2)], Some("c"));
    let second = page(vec![thread("c", 3), thread("d", 0), thread("e", 1)], None);
    let row = sheet.write_comment_rows(1, &first).unwrap();
    assert_eq!(row, 4);
    let row = sheet.write_comment_rows(row, &second).unwrap();
    assert_eq!(row, 9);
    assert_eq!(sheet.rows.len(), 8);
    assert_eq!(sheet.next_row(), 9);
}

#[test]
fn duplicate_sheet_name_is_refused() {
    let mut workbook = Workbook::new();
    workbook.add_worksheet("a").unwrap();
    workbook.add_worksheet("b").unwrap();
    match workbook.add_worksheet("a") {
        Err(RunError::AddXlsxWorksheet { name }) => assert_eq!(name, "a"),
        other => panic!("unexpected {other:?}"),
    }
    assert_eq!(workbook.sheets.len(), 2);
    let command = Command::new("key".to_string(), vec!["a".to_string(), "a".to_string()]);
    let responses = vec![vec![page(vec![], None)], vec![page(vec![], None)]];
    assert!(matches!(command.export_all(&responses), Err(RunError::AddXlsxWorksheet { .. })));
}

#[test]
fn first_page_url_is_exact_and_deterministic() {
    let u1 = first_page_url("my key", "vid").unwrap();
    let u2 = first_page_url("my key", "vid").unwrap();
    assert_eq!(u1, u2);
    assert_eq!(
        u1,
        "https://www.googleapis.com/youtube/v3/commentThreads?part=snippet%2Creplies&maxResults=100&order=time&key=my+key&videoId=vid"
    );
}

#[test]
fn next_page_url_adds_the_cursor() {
    let base = first_page_url("k", "v").unwrap();
    let n1 = next_page_url(&base, "abc").unwrap();
    let n2 = next_page_url(&base, "abc").unwrap();
    assert_eq!(n1, n2);
    assert_eq!(n1, format!("{base}&pageToken=abc"));
}

#[test]
fn bad_base_url_is_a_parse_error() {
    match next_page_url("not a url", "abc") {
        Err(RunError::ParseUrl { url, .. }) => assert_eq!(url, "not a url"),
        other => panic!("unexpected {other:?}"),
    }
}

#[test]
fn paginator_follows_cursor_from_first_url() {
    let mut pager = Paginator::new("k", "v").unwrap();
    let first = pager.next_request().unwrap();
    assert_eq!(first, first_page_url("k", "v").unwrap());
    pager.receive(&Some("t1".to_string())).unwrap();
    assert_eq!(pager.next_request().unwrap(), format!("{first}&pageToken=t1"));
    pager.receive(&Some("t2".to_string())).unwrap();
    assert_eq!(pager.next_request().unwrap(), format!("{first}&pageToken=t2"));
    assert!(!pager.is_done());
    pager.receive(&None).unwrap();
    assert!(pager.is_done());
    assert_eq!(pager.next_request(), None);
}

#[test]
fn exit_codes_by_error_kind() {
    assert_eq!(RunError::WriteXlsxColumn { message: String::new() }.exit_code(), 74);
    assert_eq!(RunError::AddXlsxWorksheet { name: String::new() }.exit_code(), 74);
    assert_eq!(RunError::CreateXlsxWorkbook { message: String::new() }.exit_code(), 74);
    assert_eq!(RunError::CloseXlsxWorkbook { message: String::new() }.exit_code(), 74);
    assert_eq!(RunError::GetRequest { message: String::new() }.exit_code(), 70);
    assert_eq!(RunError::BuildReqwestClient { message: String::new() }.exit_code(), 70);
    assert_eq!(RunError::DeserializingResponseBody { message: String::new() }.exit_code(), 70);
    let parse = next_page_url("not a url", "x").unwrap_err();
    assert_eq!(parse.exit_code(), 65);
    assert_eq!(Error::from(parse).exit_code(), 65);
    assert_eq!(Error::InitializeTokioRuntime { message: String::new() }.exit_code(), 70);
    assert_eq!(Error::CreateLogDirectory { message: String::new() }.exit_code(), 74);
}

#[test]
fn headers_in_column_order() {
    let names: Vec<&str> = (0..12).map(column_header).collect();
    assert_eq!(names[0], "etag");
    assert_eq!(names[5], "updated_at");
    assert_eq!(names[6], "replied_etag");
    assert_eq!(names[11], "replied_updated_at");
}

#[test]
fn page_from_response_body() {
    let body = parse(
        r#"{"items":[{"snippet":{"topLevelComment":{"etag":"e1","snippet":{"authorDisplayName":"Ann","authorChannelUrl":"u1","textDisplay":"hi","publishedAt":"p1","updatedAt":"d1"}}},
             "replies":{"comments":[{"snippet":{"etag":"e2","authorDisplayName":"Bob","textDisplay":"yo","publishedAt":"p2","updatedAt":"d2"}}]}},
            {"snippet":{"topLevelComment":{"snippet":{}}}}],
           "nextPageToken":"tok"}"#,
    );
    let p = page_from_json(&body);
    assert_eq!(p.next_page_token, Some("tok".to_string()));
    assert_eq!(p.threads.len(), 2);
    assert_eq!(p.threads[0].comment.etag, "e1");
    assert_eq!(p.threads[0].comment.author_display_name, "Ann");
    assert_eq!(p.threads[0].comment.updated_at, "d1");
    assert_eq!(p.threads[0].replies.len(), 1);
    assert_eq!(p.threads[0].replies[0].etag, "e2");
    assert_eq!(p.threads[0].replies[0].author_channel_url, "");
    assert_eq!(p.threads[0].replies[0].text_display, "yo");
    assert_eq!(p.threads[1].comment, Comment::empty());
    assert!(p.threads[1].replies.is_empty());
}

#[test]
fn last_page_has_no_cursor() {
    let body = parse(r#"{"items":[],"nextPageToken":null}"#);
    let p = page_from_json(&body);
    assert_eq!(p, Page { threads: vec![], next_page_token: None });
    let body = parse(r#"{"kind":"x","items":7}"#);
    assert_eq!(page_from_json(&body), Page { threads: vec![], next_page_token: None });
    let body = parse(r#"{"nextPageToken":5}"#);
    assert_eq!(page_from_json(&body).next_page_token, Some(String::new()));
}

#[test]
fn leaf_text_defaults() {
    let text = Json::Text("x".to_string());
    assert_eq!(text_or_empty(None), "");
    assert_eq!(text_or_empty(Some(&Json::Other)), "");
    assert_eq!(text_or_empty(Some(&text)), "x");
    assert_eq!(page_token(None), None);
    assert_eq!(page_token(Some(&Json::Null)), None);
    assert_eq!(page_token(Some(&text)), Some("x".to_string()));
    assert_eq!(page_token(Some(&Json::Other)), Some(String::new()));
}

#[test]
fn empty_id_list_gives_no_sheet() {
    let command = Command::new("key".to_string(), vec![]);
    let workbook = command.export_all(&vec![]).unwrap();
    assert!(workbook.sheets.is_empty());
}

#[test]
fn step_opens_sheet_once_and_follows_cursor() {
    let mut workbook = Workbook::new();
    let mut pager = Paginator::new("k", "v").unwrap();
    let first_url = pager.next_request().unwrap();
    take_page(&mut workbook, &mut pager, "v", &page(vec![thread("a", 2)], Some("c")), true).unwrap();
    assert_eq!(workbook.sheets.len(), 1);
    assert_eq!(workbook.sheets[0].name, "v");
    assert_eq!(pager.next_request().unwrap(), format!("{first_url}&pageToken=c"));
    take_page(&mut workbook, &mut pager, "v", &page(vec![thread("b", 0)], None), false).unwrap();
    assert_eq!(workbook.sheets.len(), 1);
    assert_eq!(workbook.sheets[0].rows.len(), 3);
    assert!(pager.is_done());
    let mut other = Paginator::new("k", "v").unwrap();
    let r = take_page(&mut workbook, &mut other, "v", &page(vec![], None), true);
    assert!(matches!(r, Err(RunError::AddXlsxWorksheet { .. })));
}
