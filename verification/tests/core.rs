use kampfplan::decoding::decode_storage;
use kampfplan::encoding::encode_storage;
use kampfplan::export::{derive_temp_docx_path, derive_temp_html_path, is_pdf_path, DocxExport,
    DocxStage, PdfExport, PdfStage};
use kampfplan::locks::{start_walks, step_task};
use kampfplan::logfiles::log_file_names;
use kampfplan::mail::{compose_report_body, message_kind_for, BuildInfo, MessageKind};
use kampfplan::sync::{apply_incoming, export_outgoing, replace_from_storage, sync_scalars};
use kampfplan::types::{ApplicationError, FieldGuard, FrontendStorage, Kampfgericht, Kampfrichter,
    Storage};
use kampfplan::update::{decision_value, UpdateCoordinator, UpdateState};

fn sample_frontend() -> FrontendStorage {
    let judge = Kampfrichter {
        role: String::from("AK1"),
        name: String::from("X"),
        doubleFound: false,
    };
    let table = Kampfgericht {
        uniqueID: String::from("t1"),
        table_name: String::from("KG1"),
        table_kind: String::from("Geradeturnen"),
        table_is_finale: false,
        judges: vec![(String::from("j1"), judge)],
    };
    FrontendStorage {
        wk_name: String::from("99. DM"),
        wk_date: String::from("2024-05-04"),
        wk_place: String::from("Halle 3"),
        wk_responsible_person: String::from("P. R."),
        wk_judgesmeeting_time: String::from("09:00"),
        wk_replacement_judges: Some(vec![String::from("Y")]),
        wk_judgingtables: Some(vec![(String::from("t1"), table)]),
    }
}

#[test]
fn empty_record_encodes_exactly() {
    let storage = Storage::empty();
    let text = encode_storage(&storage).unwrap();
    assert_eq!(
        text,
        "{\"wk_name\":\"\",\"wk_date\":\"\",\"wk_place\":\"\",\"wk_responsible_person\":\"\",\
         \"wk_judgesmeeting_time\":\"\",\"wk_replacement_judges\":[],\"wk_judgingtables\":{}}"
    );
}

#[test]
fn round_trip_plain_record() {
    let mut storage = Storage::empty();
    assert_eq!(apply_incoming(sample_frontend(), &mut storage), ApplicationError::NoError);
    let text = encode_storage(&storage).unwrap();
    let back = decode_storage(&text).unwrap();
    assert_eq!(back.wk_name.read().unwrap(), "99. DM");
    assert_eq!(back.wk_date.read().unwrap(), "2024-05-04");
    assert_eq!(back.wk_place.read().unwrap(), "Halle 3");
    assert_eq!(back.wk_responsible_person.read().unwrap(), "P. R.");
    assert_eq!(back.wk_judgesmeeting_time.read().unwrap(), "09:00");
    assert_eq!(back.wk_replacement_judges.read().unwrap(), &vec![String::from("Y")]);
    let tables = back.wk_judgingtables.read().unwrap();
    assert_eq!(tables.len(), 1);
    assert_eq!(tables[0].0, "t1");
    assert_eq!(tables[0].1.table_name, "KG1");
    assert_eq!(tables[0].1.judges[0].0, "j1");
    assert_eq!(tables[0].1.judges[0].1.name, "X");
    assert_eq!(tables[0].1.judges[0].1.role, "AK1");
    assert!(!tables[0].1.judges[0].1.doubleFound);
}

#[test]
fn round_trip_special_characters() {
    let mut frontend = sample_frontend();
    frontend.wk_name = String::from("a\"b\\c\nd\te\u{1f}f\u{e4}\u{1F3C6}");
    frontend.wk_place = String::from("\u{0}\u{1}start");
    let mut storage = Storage::empty();
    assert_eq!(apply_incoming(frontend.clone(), &mut storage), ApplicationError::NoError);
    let text = encode_storage(&storage).unwrap();
    let back = decode_storage(&text).unwrap();
    assert_eq!(back.wk_name.read().unwrap(), &frontend.wk_name);
    assert_eq!(back.wk_place.read().unwrap(), &frontend.wk_place);
}

#[test]
fn escapes_have_expected_form() {
    let mut storage = Storage::empty();
    let mut frontend = sample_frontend();
    frontend.wk_name = String::from("a\"\\\n\u{1f}");
    frontend.wk_replacement_judges = None;
    frontend.wk_judgingtables = None;
    apply_incoming(frontend, &mut storage);
    let text = encode_storage(&storage).unwrap();
    assert!(text.starts_with("{\"wk_name\":\"a\\\"\\\\\\u000a\\u001f\","));
}

#[test]
fn decode_rejects_malformed_text() {
    assert_eq!(decode_storage("").unwrap_err(), ApplicationError::JSONDeserializeImporterError);
    assert_eq!(
        decode_storage("{\"wk_name\":oops}").unwrap_err(),
        ApplicationError::JSONDeserializeImporterError
    );
    let mut good = encode_storage(&Storage::empty()).unwrap();
    good.push(' ');
    assert_eq!(
        decode_storage(&good).unwrap_err(),
        ApplicationError::JSONDeserializeImporterError
    );
}

#[test]
fn partial_record_clears_collections() {
    let mut storage = Storage::empty();
    assert_eq!(apply_incoming(sample_frontend(), &mut storage), ApplicationError::NoError);
    assert_eq!(storage.wk_judgingtables.read().unwrap().len(), 1);
    let mut partial = sample_frontend();
    partial.wk_replacement_judges = None;
    partial.wk_judgingtables = None;
    assert_eq!(apply_incoming(partial, &mut storage), ApplicationError::NoError);
    assert!(storage.wk_judgingtables.read().unwrap().is_empty());
    assert!(storage.wk_replacement_judges.read().unwrap().is_empty());
}

#[test]
fn poisoned_lock_stops_the_walk() {
    let mut storage = Storage::empty();
    storage.wk_date.poison();
    assert_eq!(
        apply_incoming(sample_frontend(), &mut storage),
        ApplicationError::MutexPoisonedError
    );
    // The first field in the order was written before the poisoned one was hit.
    assert_eq!(storage.wk_name.read().unwrap(), "99. DM");
    assert!(storage.wk_date.read().is_err());
    // Later fields were never touched.
    assert_eq!(storage.wk_place.read().unwrap(), "");
    assert!(storage.wk_judgingtables.read().unwrap().is_empty());
    assert_eq!(
        encode_storage(&storage).unwrap_err(),
        ApplicationError::JSONSerializeError
    );
}

#[test]
fn snapshot_collections_are_always_present() {
    let storage = Storage::empty();
    let (record, path) = export_outgoing(&storage, &None).unwrap();
    assert_eq!(record.wk_replacement_judges, Some(Vec::new()));
    assert!(matches!(record.wk_judgingtables, Some(ref v) if v.is_empty()));
    assert!(path.is_none());

    let mut filled = Storage::empty();
    apply_incoming(sample_frontend(), &mut filled);
    let save = Some(String::from("/tmp/plan.wkdata"));
    let (record, path) = export_outgoing(&filled, &save).unwrap();
    assert_eq!(record.wk_replacement_judges.unwrap(), vec![String::from("Y")]);
    assert_eq!(record.wk_judgingtables.unwrap().len(), 1);
    assert_eq!(path.unwrap(), "/tmp/plan.wkdata");
}

#[test]
fn scalar_sync_keeps_collections() {
    let mut storage = Storage::empty();
    apply_incoming(sample_frontend(), &mut storage);
    let mut update = sample_frontend();
    update.wk_name = String::from("100. DM");
    update.wk_replacement_judges = None;
    update.wk_judgingtables = None;
    assert_eq!(sync_scalars(update, &mut storage), ApplicationError::NoError);
    assert_eq!(storage.wk_name.read().unwrap(), "100. DM");
    assert_eq!(storage.wk_judgingtables.read().unwrap().len(), 1);
}

#[test]
fn import_replaces_every_field() {
    let mut source = Storage::empty();
    apply_incoming(sample_frontend(), &mut source);
    let text = encode_storage(&source).unwrap();
    let imported = decode_storage(&text).unwrap();
    let mut target = Storage::empty();
    assert_eq!(replace_from_storage(&mut target, imported), ApplicationError::NoError);
    assert_eq!(target.wk_name.read().unwrap(), "99. DM");
    assert_eq!(target.wk_judgingtables.read().unwrap().len(), 1);
}

#[test]
fn temp_paths_replace_only_the_trailing_suffix() {
    assert!(is_pdf_path("plan.pdf"));
    assert!(!is_pdf_path("plan.docx"));
    assert!(!is_pdf_path("pdf"));
    assert_eq!(derive_temp_html_path("plan.pdf"), "plan_temp.html");
    assert_eq!(derive_temp_docx_path("plan.pdf"), "plan_temp.docx");
    assert_eq!(derive_temp_html_path("a.pdf.pdf"), "a.pdf_temp.html");
    assert_eq!(derive_temp_docx_path("dir.pdf/plan.pdf"), "dir.pdf/plan_temp.docx");
}

#[test]
fn docx_export_renders_exactly_once_and_passes_status_through() {
    let mut storage = Storage::empty();
    let mut export = DocxExport::new();
    let mut render_calls: usize = 0;
    let payload = export.sync_and_serialize(sample_frontend(), &mut storage).unwrap();
    // The pipeline hands out the renderer payload exactly once.
    render_calls += 1;
    let decoded = decode_storage(&payload).unwrap();
    let tables = decoded.wk_judgingtables.read().unwrap();
    assert_eq!(tables[0].0, "t1");
    assert_eq!(tables[0].1.judges[0].0, "j1");
    assert_eq!(tables[0].1.judges[0].1.name, "X");
    export.render_done(ApplicationError::NoError);
    assert!(matches!(export.stage, DocxStage::Finished(ApplicationError::NoError)));
    assert_eq!(render_calls, 1);
}

#[test]
fn docx_export_fails_before_render_on_poisoned_lock() {
    let mut storage = Storage::empty();
    storage.wk_name.poison();
    let mut export = DocxExport::new();
    assert!(export.sync_and_serialize(sample_frontend(), &mut storage).is_none());
    assert!(matches!(
        export.stage,
        DocxStage::Finished(ApplicationError::MutexPoisonedError)
    ));
}

#[test]
fn pdf_cleanup_attempts_docx_after_missing_html() {
    let mut storage = Storage::empty();
    let mut export = PdfExport::new();
    assert!(export.sync_and_serialize(sample_frontend(), &mut storage).is_some());
    export.render_done(ApplicationError::NoError);
    export.print_done(ApplicationError::NoError);
    // The HTML temp file was already missing; its deletion failed.
    export.html_removed(false);
    // The pipeline still asks for the DOCX deletion rather than finishing.
    assert!(matches!(export.stage, PdfStage::CleanupDocx(ApplicationError::NoError, false)));
    export.docx_removed(true);
    assert_eq!(
        export.result(),
        Some(ApplicationError::RemovalOfTemporaryGeneratedFilesFailed)
    );
}

#[test]
fn pdf_print_failure_is_not_masked_by_cleanup() {
    let mut storage = Storage::empty();
    let mut export = PdfExport::new();
    assert!(export.sync_and_serialize(sample_frontend(), &mut storage).is_some());
    export.render_done(ApplicationError::NoError);
    export.print_done(ApplicationError::WritingPDFDataToDiskFailed);
    export.html_removed(false);
    export.docx_removed(false);
    assert_eq!(export.result(), Some(ApplicationError::WritingPDFDataToDiskFailed));
}

#[test]
fn pdf_render_failure_ends_the_export() {
    let mut storage = Storage::empty();
    let mut export = PdfExport::new();
    assert!(export.sync_and_serialize(sample_frontend(), &mut storage).is_some());
    export.render_done(ApplicationError::CSharpWriteError);
    assert_eq!(export.result(), Some(ApplicationError::CSharpWriteError));
}

#[test]
fn pdf_clean_run_reports_no_error() {
    let mut storage = Storage::empty();
    let mut export = PdfExport::new();
    assert!(export.sync_and_serialize(sample_frontend(), &mut storage).is_some());
    export.render_done(ApplicationError::NoError);
    export.print_done(ApplicationError::NoError);
    export.html_removed(true);
    export.docx_removed(true);
    assert_eq!(export.result(), Some(ApplicationError::NoError));
}

#[test]
fn declined_update_downloads_nothing() {
    let mut coordinator = UpdateCoordinator::new();
    coordinator.check_result(true);
    let mut downloads: usize = 0;
    for flag in [0i8, 0, -1] {
        if coordinator.state == UpdateState::AwaitingDecision {
            if coordinator.poll_decision(flag) {
                downloads += 1;
            }
        }
    }
    assert_eq!(coordinator.state, UpdateState::Declined);
    assert_eq!(downloads, 0);
}

#[test]
fn accepted_update_reaches_installed_with_full_progress() {
    let mut coordinator = UpdateCoordinator::new();
    coordinator.check_result(true);
    let mut downloads: usize = 0;
    for flag in [0i8, 0, 1] {
        if coordinator.state == UpdateState::AwaitingDecision {
            if coordinator.poll_decision(flag) {
                downloads += 1;
            }
        }
    }
    assert_eq!(downloads, 1);
    let content_len = 100u64;
    let payload = coordinator.chunk_received(30, Some(content_len));
    assert_eq!(payload.chunk_len, 30);
    let payload = coordinator.chunk_received(70, Some(content_len));
    assert_eq!(payload.chunk_len, 100);
    assert_eq!(coordinator.progress, content_len);
    coordinator.download_finished();
    assert_eq!(coordinator.state, UpdateState::Installed);
}

#[test]
fn failed_check_returns_to_idle() {
    let mut coordinator = UpdateCoordinator::new();
    coordinator.check_failed();
    assert_eq!(coordinator.state, UpdateState::Idle);
    coordinator.check_result(false);
    assert_eq!(coordinator.state, UpdateState::Idle);
}

#[test]
fn failed_download_is_terminal_without_install() {
    let mut coordinator = UpdateCoordinator::new();
    coordinator.check_result(true);
    assert!(coordinator.poll_decision(1));
    coordinator.download_failed();
    assert_eq!(coordinator.state, UpdateState::Failed);
}

#[test]
fn decision_flag_values() {
    assert_eq!(decision_value(true), 1);
    assert_eq!(decision_value(false), -1);
}

#[test]
fn concurrent_lock_walks_always_finish() {
    // Drive two walks over the seven field locks under several
    // interleavings; under the one-lock-at-a-time discipline some task can
    // always move until both are done.
    let fields = 7usize;
    for pattern in 0u32..64 {
        let (mut walks, fields) = start_walks(fields);
        let mut steps = 0usize;
        let mut turn = 0u32;
        loop {
            let first_done = walks.first.next >= fields && walks.first.holding.is_none();
            let second_done = walks.second.next >= fields && walks.second.holding.is_none();
            if first_done && second_done {
                break;
            }
            let pick_first = (pattern >> (turn % 6)) & 1 == 0;
            let moved = step_task(&mut walks, fields, pick_first);
            let moved = moved || step_task(&mut walks, fields, !pick_first);
            assert!(moved, "no task could move: deadlock");
            turn += 1;
            steps += 1;
            assert!(steps <= 200, "walks did not finish");
        }
    }
}

#[test]
fn subject_lines_are_tagged() {
    assert_eq!(
        MessageKind::Bug(String::from("crash")).generate_subject(),
        "[BUG]: crash"
    );
    assert_eq!(
        MessageKind::Feedback(String::from("nice")).generate_subject(),
        "[FEEDBACK]: nice"
    );
    assert_eq!(
        MessageKind::Support(String::from("help")).generate_subject(),
        "[SUPPORT]: help"
    );
    assert_eq!(
        MessageKind::Panic((String::from("boom"), String::from("detail"))).generate_subject(),
        "[PANIC]: boom"
    );
    assert_eq!(MessageKind::Unknown.generate_subject(), "[UNKNOWN]");
}

#[test]
fn mail_heading_carries_the_build_identity() {
    let info = BuildInfo {
        app_version: String::from("1.2.3"),
        git_branch: String::from("main"),
        git_commit: String::from("abc123"),
        target_triple: String::from("x86_64-unknown-linux-gnu"),
        llvm_version: String::from("17.0.6"),
    };
    let heading = MessageKind::Bug(String::from("crash")).generate_mail_heading(&info);
    assert_eq!(
        heading,
        "<h3>[BUG]: crash</h3><h4>DTB Kampfrichtereinsatzpl\u{e4}ne v1.2.3</h4>\
         <p>[COMMIT]: main-abc123<br />[TARGET_TRIPLE]: x86_64-unknown-linux-gnu\
         <br />[LLVM]: LLVM 17.0.6<br /></p>"
    );
}

#[test]
fn report_body_covers_all_sender_shapes() {
    assert_eq!(
        compose_report_body(
            Some(String::from("N")),
            Some(String::from("n@example.org")),
            String::from("line1\nline2"),
        ),
        "<p>---------<br /><b>N</b><br /><i>n@example.org</i><br /><br />line1<br />line2</p>"
    );
    assert_eq!(
        compose_report_body(Some(String::from("N")), None, String::from("m")),
        "<p>---------<br /><b>N</b><br /><br />m</p>"
    );
    assert_eq!(
        compose_report_body(None, Some(String::from("n@example.org")), String::from("m")),
        "<p><---------<br /><i>n@example.org</i><br /><br />m</p>"
    );
    assert_eq!(
        compose_report_body(None, None, String::from("m")),
        "<p>---------<br />m</p>"
    );
}

#[test]
fn report_kinds_are_sorted_by_tag() {
    assert!(matches!(
        message_kind_for("[BUG] Report", String::from("s")),
        MessageKind::Bug(_)
    ));
    assert!(matches!(
        message_kind_for("FEEDBACK", String::from("s")),
        MessageKind::Feedback(_)
    ));
    assert!(matches!(
        message_kind_for("SUPPORT", String::from("s")),
        MessageKind::Support(_)
    ));
    assert!(matches!(
        message_kind_for("whatever", String::from("s")),
        MessageKind::Unknown
    ));
}

#[test]
fn log_file_names_spell_out_the_timestamp() {
    let (out, err) = log_file_names(2024, 5, 4, 9, 30, 7);
    assert_eq!(out, "LOG__2024-5-4_9-30-7__STDOUT.txt");
    assert_eq!(err, "LOG__2024-5-4_9-30-7__STDERR.txt");
}

#[test]
fn field_guard_reports_poison_on_every_access() {
    let mut guard: FieldGuard<String> = FieldGuard::new(String::from("v"));
    assert_eq!(guard.read().unwrap(), "v");
    assert!(guard.write(String::from("w")).is_ok());
    assert_eq!(guard.read().unwrap(), "w");
    guard.poison();
    assert_eq!(guard.read().unwrap_err(), ApplicationError::MutexPoisonedError);
    assert_eq!(
        guard.write(String::from("x")).unwrap_err(),
        ApplicationError::MutexPoisonedError
    );
}
