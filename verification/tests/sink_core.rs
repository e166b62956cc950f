use arb_notify::enrich::retry_backoff_ms;
use arb_notify::sink::{frame_line, sink_file_name, utc_ymd_from_ms, FileSinkCfg, SinkBuffers};

#[test]
fn escape_basic() {
    let s = "_test.*(ok)!";
    assert_eq!(arb_notify::markdown::escape_md_v2(s), "\\_test\\.\\*\\(ok\\)\\!");
}

#[test]
fn rotated_file_name_carries_utc_date() {
    assert_eq!(sink_file_name("s", true, 2024, 5, 7), "s-2024-05-07.jsonl");
    assert_eq!(sink_file_name("alerts_enriched", true, 1999, 12, 31), "alerts_enriched-1999-12-31.jsonl");
}

#[test]
fn unrotated_file_name_has_no_date() {
    assert_eq!(sink_file_name("errors", false, 2024, 5, 7), "errors.jsonl");
}

#[test]
fn frame_line_appends_newline_verbatim() {
    assert_eq!(frame_line("{\"a\":1}"), "{\"a\":1}\n");
    assert_eq!(frame_line(""), "\n");
}

#[test]
fn accepted_records_drain_verbatim_in_order() {
    let mut buffers = SinkBuffers::new();
    let path = sink_file_name("s", true, 2024, 5, 7);
    buffers.accept(path.clone(), frame_line("{\"a\":1}"));
    buffers.accept(path.clone(), frame_line("{\"b\":2}"));
    buffers.accept(String::from("errors.jsonl"), frame_line("{\"err\":\"x\"}"));
    let batches = buffers.drain();
    assert_eq!(batches.len(), 2);
    assert_eq!(batches[0].0, "s-2024-05-07.jsonl");
    assert_eq!(batches[0].1, vec!["{\"a\":1}\n", "{\"b\":2}\n"]);
    assert_eq!(batches[1].0, "errors.jsonl");
    assert_eq!(batches[1].1, vec!["{\"err\":\"x\"}\n"]);

    // the drain left nothing behind
    assert!(buffers.drain().is_empty());
}

#[test]
fn sink_cfg_holds_dir_and_rotation() {
    let cfg = FileSinkCfg { dir: String::from("./outbox"), rotate_daily: true };
    assert!(cfg.rotate_daily);
    assert_eq!(cfg.dir, "./outbox");
}

#[test]
fn utc_date_of_known_timestamps() {
    assert_eq!(utc_ymd_from_ms(0), (1970, 1, 1));
    // 2024-05-07 12:00:00 UTC
    assert_eq!(utc_ymd_from_ms(1_715_083_200_000), (2024, 5, 7));
    // 2000-02-29 (leap day), midnight UTC
    assert_eq!(utc_ymd_from_ms(951_782_400_000), (2000, 2, 29));
    // 1999-12-31 23:59:59.999
    assert_eq!(utc_ymd_from_ms(946_684_799_999), (1999, 12, 31));
}

#[test]
fn retry_schedule_doubles_and_ends() {
    assert_eq!(retry_backoff_ms(0), Some(200));
    assert_eq!(retry_backoff_ms(1), Some(400));
    assert_eq!(retry_backoff_ms(2), Some(800));
    assert_eq!(retry_backoff_ms(3), Some(1600));
    assert_eq!(retry_backoff_ms(4), None);
    assert_eq!(retry_backoff_ms(100), None);
}
