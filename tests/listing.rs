use s3ls::text::contains;
use s3ls::text::same_text;
use s3ls::text::slice_contains;
use s3ls::lines_of;
use s3ls::S3Ctx;

fn bucket_page() -> Option<Vec<Option<String>>> {
    Some(vec![
        Some("logs/2023/a.txt".to_string()),
        Some("logs/2023/b.txt".to_string()),
        Some("logs/2024/a.txt".to_string()),
    ])
}

fn ok_page(page: Option<Vec<Option<String>>>) -> Result<Option<Vec<Option<String>>>, String> {
    Ok(page)
}

#[test]
fn ls_start_key_only() {
    let ctx = S3Ctx::new("bucket", "logs/2023", None, None);
    let out = ctx.list_objects(ok_page(bucket_page())).unwrap();
    assert_eq!(out, "logs/2023/a.txt\nlogs/2023/b.txt\n");
}

#[test]
fn ls_with_include_filter() {
    let ctx = S3Ctx::new("bucket", "logs/2023", Some("b.txt"), None);
    let out = ctx.list_objects(ok_page(bucket_page())).unwrap();
    assert_eq!(out, "logs/2023/b.txt\n");
}

#[test]
fn ls_with_empty_include_and_exclude_filter() {
    let ctx = S3Ctx::new("bucket", "logs/2023", Some(""), Some("2024"));
    let out = ctx.list_objects(ok_page(bucket_page())).unwrap();
    assert_eq!(out, "logs/2023/a.txt\nlogs/2023/b.txt\n");
}

#[test]
fn exclude_filter_drops_matching_keys() {
    let ctx = S3Ctx::new("bucket", "logs", None, Some("a.txt"));
    let out = ctx.list_objects(ok_page(bucket_page())).unwrap();
    assert_eq!(out, "logs/2023/b.txt\n");
}

#[test]
fn keys_keep_listing_order() {
    let page = Some(vec![
        Some("x/3".to_string()),
        Some("x/1".to_string()),
        Some("y/2".to_string()),
        Some("x/2".to_string()),
    ]);
    let ctx = S3Ctx::new("bucket", "x/", None, None);
    let keys = ctx.keys(ok_page(page)).unwrap();
    assert_eq!(keys, vec!["x/3".to_string(), "x/1".to_string(), "x/2".to_string()]);
}

#[test]
fn start_key_itself_is_kept_when_listed() {
    let page = Some(vec![Some("logs/2023".to_string()), Some("other".to_string())]);
    let ctx = S3Ctx::new("bucket", "logs/2023", None, None);
    let keys = ctx.keys(ok_page(page)).unwrap();
    assert_eq!(keys, vec!["logs/2023".to_string()]);
}

#[test]
fn entry_without_key_counts_as_empty_key() {
    let page = Some(vec![None, Some("a".to_string())]);
    let ctx = S3Ctx::new("bucket", "", None, None);
    let keys = ctx.keys(ok_page(page.clone())).unwrap();
    assert_eq!(keys, vec!["".to_string(), "a".to_string()]);
    let ctx = S3Ctx::new("bucket", "a", None, None);
    let keys = ctx.keys(ok_page(page)).unwrap();
    assert_eq!(keys, vec!["a".to_string()]);
}

#[test]
fn empty_listing_prints_nothing() {
    let ctx = S3Ctx::new("bucket", "logs", None, None);
    assert_eq!(ctx.list_objects(ok_page(None)).unwrap(), "");
    assert_eq!(ctx.list_objects(ok_page(Some(vec![]))).unwrap(), "");
    assert!(ctx.keys(ok_page(None)).unwrap().is_empty());
}

#[test]
fn listing_error_is_handed_on() {
    let ctx = S3Ctx::new("bucket", "logs", None, None);
    let failed: Result<Option<Vec<Option<String>>>, String> = Err("NoSuchBucket".to_string());
    assert_eq!(ctx.list_objects(failed), Err("NoSuchBucket".to_string()));
    let failed: Result<Option<Vec<Option<String>>>, String> = Err("denied".to_string());
    assert_eq!(ctx.keys(failed), Err("denied".to_string()));
}

#[test]
fn ls_twice_gives_the_same_output() {
    let ctx = S3Ctx::new("bucket", "logs/2023", None, Some("2024"));
    let first = ctx.list_objects(ok_page(bucket_page())).unwrap();
    let second = ctx.list_objects(ok_page(bucket_page())).unwrap();
    assert_eq!(first, second);
}

#[test]
fn key_passes_applies_every_filter() {
    let ctx = S3Ctx::new("b", "logs", Some("2023"), Some("b.txt"));
    assert!(ctx.key_passes("logs/2023/a.txt"));
    assert!(!ctx.key_passes("logs/2023/b.txt"));
    assert!(!ctx.key_passes("logs/2024/a.txt"));
    assert!(!ctx.key_passes("data/2023/a.txt"));
}

#[test]
fn new_keeps_its_arguments() {
    let ctx = S3Ctx::new("bucket", "key", Some("inc"), None);
    assert_eq!(ctx.bucket, "bucket");
    assert_eq!(ctx.key, "key");
    assert_eq!(ctx.filter, Some("inc".to_string()));
    assert_eq!(ctx.ng_filter, None);
}

#[test]
fn substring_search() {
    assert!(contains("logs/2023/a.txt", "2023"));
    assert!(contains("logs/2023/a.txt", ""));
    assert!(contains("", ""));
    assert!(contains("abc", "abc"));
    assert!(!contains("abc", "abcd"));
    assert!(!contains("logs/2023/a.txt", "2024"));
    assert!(contains("grüße/ü", "ü"));
    assert!(slice_contains(b"hello", b"llo"));
    assert!(!slice_contains(b"hello", b"lol"));
}

#[test]
fn text_equality() {
    assert!(same_text("ls", "ls"));
    assert!(!same_text("ls", "cat"));
    assert!(!same_text("ls", "lsx"));
    assert!(same_text("", ""));
}

#[test]
fn lines_end_each_key_with_newline() {
    assert_eq!(lines_of(&vec![]), "");
    assert_eq!(lines_of(&vec!["a".to_string(), "".to_string(), "b/c".to_string()]), "a\n\nb/c\n");
}
