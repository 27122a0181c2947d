use std::time::Duration;

use soql_studio::socrata::analysis::{
    analysis_outcome, AnalysisContainer, AnalysisErrCause, AnalysisResponseData, AnalysisTerminal,
};
use soql_studio::socrata::data::{
    Channel, Container, ErrCause, FetchTerminal, ResponseData,
};
use soql_studio::utils::NetworkImage;
use soql_studio::Config;

#[test]
fn config_default_is_empty() {
    let c = Config::default();
    assert_eq!(c.username, "");
    assert_eq!(c.password, "");
    assert_eq!(c.domain, "");
    assert_eq!(c.dataset, "");
    assert_eq!(c.query, "");
}

#[test]
fn set_data_clears_error() {
    let mut d = ResponseData::default();
    d.set_error("boom".to_string());
    assert_eq!(d.error.as_deref(), Some("boom"));
    d.set_data(vec![vec!["a".to_string()]]);
    assert!(d.error.is_none());
    assert_eq!(d.data, Some(vec![vec!["a".to_string()]]));
}

#[test]
fn set_error_clears_data() {
    let mut d = ResponseData::default();
    d.set_data(vec![vec!["a".to_string()]]);
    d.set_error("boom".to_string());
    assert!(d.data.is_none());
    assert_eq!(d.error.as_deref(), Some("boom"));
}

#[test]
fn repair_below_threshold_keeps_displayed_size() {
    let mut d = ResponseData::default();
    d.file_size = 7;
    d.tmp_file_size = 450;
    d.is_running = true;
    d.repair();
    assert_eq!(d.file_size, 7);
    assert_eq!(d.tmp_file_size, 0);
    assert!(!d.is_running);
}

#[test]
fn repair_folds_accumulated_bytes_into_kb() {
    let mut d = ResponseData::default();
    d.tmp_file_size = 2300;
    d.is_running = true;
    d.repair();
    assert_eq!(d.file_size, 2);
    assert_eq!(d.tmp_file_size, 0);
    assert!(!d.is_running);
}

#[test]
fn drain_applies_progress_then_terminal() {
    let mut d = ResponseData::default();
    d.is_running = true;
    let dur = Duration::from_millis(320);
    let msgs = vec![Channel::Data(100), Channel::Elapsed(dur), Channel::Data(200)];
    let rows = vec![vec!["h".to_string()], vec!["1".to_string()]];
    let eff = d.drain_frame(msgs, Some(FetchTerminal::Success(Container::Data(rows.clone()))));
    assert_eq!(d.tmp_file_size, 300);
    assert_eq!(eff.last_elapsed, Some(dur));
    assert!(eff.finalized);
    assert!(!eff.reset_elapsed);
    assert_eq!(d.data, Some(rows));
    assert!(d.error.is_none());
    assert!(d.is_running);
}

#[test]
fn drain_without_terminal_only_accumulates() {
    let mut d = ResponseData::default();
    let eff = d.drain_frame(vec![Channel::Data(42)], None);
    assert_eq!(d.tmp_file_size, 42);
    assert!(!eff.finalized);
    assert!(eff.last_elapsed.is_none());
    assert!(d.data.is_none() && d.error.is_none());
}

#[test]
fn drain_data_error_sets_message() {
    let mut d = ResponseData::default();
    d.set_data(vec![vec!["stale".to_string()]]);
    let eff = d.drain_frame(
        vec![],
        Some(FetchTerminal::Typed(ErrCause::Data("connection refused".to_string()))),
    );
    assert!(eff.finalized);
    assert_eq!(d.error.as_deref(), Some("connection refused"));
    assert!(d.data.is_none());
}

#[test]
fn drain_elapsed_error_only_resets_duration() {
    let mut d = ResponseData::default();
    d.set_data(vec![vec!["kept".to_string()]]);
    let eff = d.drain_frame(
        vec![],
        Some(FetchTerminal::Typed(ErrCause::Elapsed("clock".to_string()))),
    );
    assert!(eff.finalized);
    assert!(eff.reset_elapsed);
    assert_eq!(d.data, Some(vec![vec!["kept".to_string()]]));
    assert!(d.error.is_none());
}

#[test]
fn drain_abnormal_termination_sets_message() {
    let mut d = ResponseData::default();
    let eff = d.drain_frame(vec![], Some(FetchTerminal::Abnormal("task panicked".to_string())));
    assert!(eff.finalized);
    assert_eq!(d.error.as_deref(), Some("task panicked"));
}

#[test]
fn reset_fetch_after_canceled_data_fetch() {
    let mut d = ResponseData::default();
    d.seed = 3;
    d.tmp_file_size = 2300;
    let label = d.reset_fetch(true, true);
    assert_eq!(label.as_deref(), Some("Retry?"));
    assert_eq!(d.seed, 2);
    assert_eq!(d.file_size, 2);
    assert_eq!(d.tmp_file_size, 0);
    assert!(!d.is_running);
}

#[test]
fn reset_fetch_seed_floor_is_one() {
    let mut d = ResponseData::default();
    d.seed = 1;
    let label = d.reset_fetch(true, true);
    assert_eq!(label.as_deref(), Some("Retry?"));
    assert_eq!(d.seed, 1);
}

#[test]
fn reset_fetch_canceled_other_slot_increments_seed() {
    let mut d = ResponseData::default();
    d.seed = 4;
    let label = d.reset_fetch(false, true);
    assert!(label.is_none());
    assert_eq!(d.seed, 5);
}

#[test]
fn reset_fetch_normal_completion() {
    let mut d = ResponseData::default();
    d.seed = 4;
    let label = d.reset_fetch(true, false);
    assert_eq!(label.as_deref(), Some("Run Query"));
    assert_eq!(d.seed, 4);
}

#[test]
fn analysis_outcome_by_status() {
    match analysis_outcome(true) {
        Ok(AnalysisContainer::Data(d)) => assert_eq!(d, "Hello"),
        Err(_) => panic!("a success status must yield data"),
    }
    match analysis_outcome(false) {
        Err(e) => assert_eq!(e, "Bad Call"),
        Ok(_) => panic!("a failure status must yield an error"),
    }
}

#[test]
fn analysis_holder_finalize() {
    let mut a = AnalysisResponseData::default();
    a.finalize(AnalysisTerminal::Success(AnalysisContainer::Data("plan".to_string())));
    assert_eq!(a.data.as_deref(), Some("plan"));
    assert!(a.error.is_none());
    a.finalize(AnalysisTerminal::Typed(AnalysisErrCause::Data("bad".to_string())));
    assert_eq!(a.error.as_deref(), Some("bad"));
    assert!(a.data.is_none());
    a.finalize(AnalysisTerminal::Abnormal("panic".to_string()));
    assert_eq!(a.error.as_deref(), Some("panic"));
}

#[test]
fn network_image_holder() {
    let mut n = NetworkImage::default();
    n.set_error("lost".to_string());
    n.set_image(vec![vec!["px".to_string()]]);
    assert!(n.error.is_none());
    assert_eq!(n.image, Some(vec![vec!["px".to_string()]]));
    n.set_error("lost again".to_string());
    assert!(n.image.is_none());
    n.tmp_file_size = 999;
    n.show_image_progress = true;
    n.repair();
    assert_eq!(n.file_size, 0);
    assert_eq!(n.tmp_file_size, 0);
    assert!(!n.show_image_progress);
}
