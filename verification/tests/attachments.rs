use email_cli::attachments::{
    attachment_list_line, attachment_needs_refresh, attachment_source, numbered_file_name,
    prefetch_action, prefetch_step, records_saved_path, PrefetchNext, PrefetchStage,
    output_path, prefetch_filename, preferred_filename, sanitize_file_name, write_attachment_output,
    AttachmentError, AttachmentSource, OutputTarget, PrefetchAction, PrefetchTally,
};
use email_cli::cli::AttachmentGetArgs;
use email_cli::models::AttachmentRecord;

fn record() -> AttachmentRecord {
    AttachmentRecord {
        id: 12,
        message_id: 3,
        remote_attachment_id: Some("att_1".to_string()),
        filename: Some("report.pdf".to_string()),
        content_type: Some("application/pdf".to_string()),
        size: Some(1024),
        download_url: Some("https://cdn.example/att_1".to_string()),
        local_path: None,
    }
}

#[test]
fn output_file_writes_exact_path() {
    let dir = "/tmp/email-cli-attachments-test-file";
    let target = format!("{}/renamed.pdf", dir);
    let args = AttachmentGetArgs {
        message_id: 1,
        attachment_id: "att".to_string(),
        output: None,
        output_dir: None,
        output_file: Some(target.clone()),
    };
    let written = write_attachment_output(&args, &format!("{}/default", dir));
    assert_eq!(written, OutputTarget::File(target.clone()));
    let name = preferred_filename(&Some("original.pdf".to_string()), "att");
    assert_eq!(name, "original.pdf");
    assert_eq!(output_path(&written, &name, 0), target);
}

#[test]
fn legacy_output_writes_inside_directory() {
    let dir = "/tmp/email-cli-attachments-test-dir".to_string();
    let args = AttachmentGetArgs {
        message_id: 1,
        attachment_id: "att".to_string(),
        output: Some(dir.clone()),
        output_dir: None,
        output_file: None,
    };
    let written = write_attachment_output(&args, &format!("{}/default", dir));
    assert_eq!(written, OutputTarget::Directory(dir.clone()));
    let name = preferred_filename(&Some("original.pdf".to_string()), "att");
    assert_eq!(name, "original.pdf");
    assert_eq!(output_path(&written, &name, 0), format!("{}/original.pdf", dir));
}

#[test]
fn output_dir_wins_over_legacy_output_and_default() {
    let args = AttachmentGetArgs {
        message_id: 1,
        attachment_id: "att".to_string(),
        output: Some("legacy".to_string()),
        output_dir: Some("newer".to_string()),
        output_file: None,
    };
    assert_eq!(write_attachment_output(&args, "dl"), OutputTarget::Directory("newer".to_string()));
    let bare = AttachmentGetArgs {
        message_id: 1,
        attachment_id: "att".to_string(),
        output: None,
        output_dir: None,
        output_file: None,
    };
    assert_eq!(write_attachment_output(&bare, "dl"), OutputTarget::Directory("dl".to_string()));
}

#[test]
fn filenames_fall_back_to_ids() {
    assert_eq!(preferred_filename(&None, "att_9"), "attachment-att_9");
    let mut r = record();
    assert_eq!(prefetch_filename(&r), "report.pdf");
    r.filename = None;
    assert_eq!(prefetch_filename(&r), "attachment-12");
    r.id = -4;
    assert_eq!(prefetch_filename(&r), "attachment--4");
}

#[test]
fn attachment_source_prefers_existing_cache() {
    let mut r = record();
    r.local_path = Some("/cache/report.pdf".to_string());
    assert_eq!(
        attachment_source(&r, true, "att_1"),
        Ok(AttachmentSource::Cached("/cache/report.pdf".to_string()))
    );
    assert_eq!(
        attachment_source(&r, false, "att_1"),
        Ok(AttachmentSource::Download("https://cdn.example/att_1".to_string()))
    );
    r.download_url = None;
    assert_eq!(
        attachment_source(&r, false, "att_1"),
        Err(AttachmentError::NoDownloadUrl("att_1".to_string()))
    );
}

#[test]
fn attachment_list_line_defaults() {
    let mut r = record();
    assert_eq!(attachment_list_line(&r), "att_1 report.pdf");
    r.remote_attachment_id = None;
    r.filename = None;
    assert_eq!(attachment_list_line(&r), "unknown attachment");
}

#[test]
fn prefetch_action_cases() {
    let mut r = record();
    assert_eq!(
        prefetch_action(&r),
        PrefetchAction::Download {
            url: "https://cdn.example/att_1".to_string(),
            filename: "report.pdf".to_string()
        }
    );
    r.download_url = None;
    assert_eq!(prefetch_action(&r), PrefetchAction::NoUrl);
    r.local_path = Some("/cache/x".to_string());
    assert_eq!(prefetch_action(&r), PrefetchAction::AlreadyCached);
}

#[test]
fn prefetch_tally_summary() {
    let mut t = PrefetchTally::new();
    assert_eq!(t.summary(), "no attachments to prefetch");
    t.record_download();
    t.record_download();
    t.record_error();
    assert_eq!(t.downloaded, 2);
    assert_eq!(t.errors, 1);
    assert_eq!(t.summary(), "prefetched 2 attachment(s); 1 error(s)");
}

#[test]
fn sanitized_names_stay_in_the_directory() {
    assert_eq!(sanitize_file_name("report.pdf"), "report.pdf");
    assert_eq!(sanitize_file_name("../../etc/passwd"), "_.._etc_passwd");
    assert_eq!(sanitize_file_name("  .hidden  "), "hidden");
    assert_eq!(sanitize_file_name("a\\b\u{7}c"), "a_b_c");
    assert_eq!(sanitize_file_name("..."), "attachment");
    assert_eq!(sanitize_file_name(""), "attachment");
}

#[test]
fn numbered_names_keep_the_extension() {
    assert_eq!(numbered_file_name("report.pdf", 0), "report.pdf");
    assert_eq!(numbered_file_name("report.pdf", 1), "report (1).pdf");
    assert_eq!(numbered_file_name("archive.tar.gz", 2), "archive.tar (2).gz");
    assert_eq!(numbered_file_name("README", 3), "README (3)");
    assert_eq!(numbered_file_name(".env", 1), ".env (1)");
}

#[test]
fn prefetch_failure_policy() {
    let t = PrefetchTally::new();
    let (t, n) = prefetch_step(PrefetchStage::Account, false, t);
    assert_eq!((t.downloaded, t.errors, n), (0, 1, PrefetchNext::NextMessage));
    let (t, n) = prefetch_step(PrefetchStage::Metadata, true, t);
    assert_eq!((t.downloaded, t.errors, n), (0, 1, PrefetchNext::Proceed));
    let (t, n) = prefetch_step(PrefetchStage::Download, false, t);
    assert_eq!((t.downloaded, t.errors, n), (0, 2, PrefetchNext::NextAttachment));
    let (t, n) = prefetch_step(PrefetchStage::Write, false, t);
    assert_eq!((t.downloaded, t.errors, n), (0, 3, PrefetchNext::NextAttachment));
    let (t, n) = prefetch_step(PrefetchStage::RecordPath, true, t);
    assert_eq!((t.downloaded, t.errors, n), (1, 3, PrefetchNext::NextAttachment));
    let (t, n) = prefetch_step(PrefetchStage::RecordPath, false, t);
    assert_eq!((t.downloaded, t.errors, n), (1, 3, PrefetchNext::Abort));
}

#[test]
fn attachments_get_refresh_and_record_decisions() {
    let mut r = record();
    assert!(attachment_needs_refresh(&None, false));
    assert!(attachment_needs_refresh(&Some(r.clone()), true));
    assert!(records_saved_path(&r));
    r.local_path = Some("/cache/report.pdf".to_string());
    assert!(!attachment_needs_refresh(&Some(r.clone()), true));
    assert!(attachment_needs_refresh(&Some(r.clone()), false));
    assert!(!records_saved_path(&r));
}

#[test]
fn output_path_numbers_taken_names_and_joins_once() {
    let dir = OutputTarget::Directory("out/".to_string());
    assert_eq!(output_path(&dir, "a/b.txt", 0), "out/a_b.txt");
    assert_eq!(output_path(&dir, "report.pdf", 2), "out/report (2).pdf");
    assert_eq!(output_path(&OutputTarget::Directory(String::new()), "x", 0), "x");
}
