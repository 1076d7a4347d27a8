use imgpipe::processor::PipelineError;
use imgpipe::webp::MuxAction;
use imgpipe::webp::WebpEncodeMachine;

/// Drives the machine, failing the native step whose index (among the
/// operative steps actually reached) equals `fail_at`; returns the
/// release actions seen and the final outcome.
fn drive(
    quality: u8,
    has_alpha: bool,
    has_icc: bool,
    fail_at: Option<usize>,
) -> (Vec<(bool, bool, bool)>, Option<PipelineError>) {
    let mut m = WebpEncodeMachine::new(quality, has_alpha, has_icc);
    let mut releases = Vec::new();
    let mut step = 0usize;
    loop {
        match m.next_action() {
            MuxAction::Encode { .. }
            | MuxAction::CreateMux
            | MuxAction::SetImageChunk
            | MuxAction::SetIccChunk
            | MuxAction::Assemble => {
                let ok = Some(step) != fail_at;
                m.report(ok);
                step += 1;
            }
            MuxAction::CopyOutput => {
                m.report(true);
                step += 1;
            }
            MuxAction::Release {
                raw,
                mux,
                container,
            } => {
                releases.push((raw, mux, container));
                m.released();
            }
            MuxAction::Finish { error } => return (releases, error),
        }
    }
}

#[test]
fn success_run_releases_everything_once() {
    let (releases, error) = drive(85, false, true, None);
    assert_eq!(error, None);
    // one cleanup, naming all three resources exactly once
    assert_eq!(releases, vec![(true, true, true)]);
}

#[test]
fn success_without_icc_skips_icc_stage() {
    let mut m = WebpEncodeMachine::new(85, false, false);
    // encode, create mux, set image
    m.report(true);
    m.report(true);
    m.report(true);
    // with no profile to attach, the next step is assembly
    assert!(matches!(m.next_action(), MuxAction::Assemble));
}

#[test]
fn encode_failure_holds_nothing() {
    let (releases, error) = drive(85, false, true, Some(0));
    assert_eq!(error, Some(PipelineError::EncodeError(imgpipe::processor::ImageType::WebP)));
    // nothing had been acquired, so there is nothing to release
    assert_eq!(releases, Vec::<(bool, bool, bool)>::new());
}

#[test]
fn mux_creation_failure_releases_raw_only() {
    let (releases, error) = drive(85, false, true, Some(1));
    assert_eq!(error, Some(PipelineError::NativeResourceError));
    assert_eq!(releases, vec![(true, false, false)]);
}

#[test]
fn set_image_failure_releases_raw_and_mux() {
    let (releases, error) = drive(85, false, true, Some(2));
    assert_eq!(error, Some(PipelineError::NativeResourceError));
    assert_eq!(releases, vec![(true, true, false)]);
}

#[test]
fn set_icc_failure_releases_raw_and_mux() {
    let (releases, error) = drive(85, false, true, Some(3));
    assert_eq!(error, Some(PipelineError::NativeResourceError));
    assert_eq!(releases, vec![(true, true, false)]);
}

#[test]
fn assemble_failure_releases_raw_and_mux() {
    // without a profile, the assemble step is the fourth
    let (releases, error) = drive(85, false, false, Some(3));
    assert_eq!(error, Some(PipelineError::NativeResourceError));
    assert_eq!(releases, vec![(true, true, false)]);
}

#[test]
fn quality_100_selects_lossless_rgba_by_alpha() {
    let m = WebpEncodeMachine::new(100, true, false);
    match m.next_action() {
        MuxAction::Encode {
            lossless,
            quality,
            use_alpha,
        } => {
            assert!(lossless);
            assert_eq!(quality, 100);
            assert!(use_alpha);
        }
        _ => panic!("first action must be the encode"),
    }
}

#[test]
fn quality_below_100_selects_lossy_rgb() {
    let m = WebpEncodeMachine::new(99, false, false);
    match m.next_action() {
        MuxAction::Encode {
            lossless,
            quality,
            use_alpha,
        } => {
            assert!(!lossless);
            assert_eq!(quality, 99);
            assert!(!use_alpha);
        }
        _ => panic!("first action must be the encode"),
    }
}
