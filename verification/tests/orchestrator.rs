use kondis::orchestrator::{run_mode, Run, RunMode, RunStage, RunStep};

#[test]
fn run_modes() {
    assert_eq!(run_mode(true, false), RunMode::Inspect);
    assert_eq!(run_mode(true, true), RunMode::LevelsOnly);
    assert_eq!(run_mode(false, true), RunMode::LevelsOnly);
    assert_eq!(run_mode(false, false), RunMode::Drive);
}

#[test]
fn driving_run_goes_through_every_stage() {
    let mut run = Run::new(RunMode::Drive);
    assert_eq!(run.stage(), RunStage::Starting);
    assert_eq!(run.mode(), RunMode::Drive);
    assert_eq!(run.begin(), RunStep::Discover);
    assert_eq!(run.stage(), RunStage::Discovering);
    assert_eq!(run.discovered(true), RunStep::Connect);
    assert_eq!(run.stage(), RunStage::Connecting);
    assert_eq!(run.connected(true), RunStep::PermitPlayback);
    assert_eq!(run.stage(), RunStage::PermittingPlayback);
    assert_eq!(run.playback_permitted(), RunStep::Stream);
    assert_eq!(run.stage(), RunStage::Streaming);
    assert_eq!(run.stream_ended(), RunStep::Disconnect);
    assert_eq!(run.stage(), RunStage::TearingDown);
    assert_eq!(run.disconnected(), RunStep::Exit);
    assert_eq!(run.stage(), RunStage::Done);
}

#[test]
fn run_without_equipment_plays_at_once() {
    let mut run = Run::new(RunMode::LevelsOnly);
    assert_eq!(run.begin(), RunStep::PermitPlayback);
    assert_eq!(run.playback_permitted(), RunStep::Stream);
    assert_eq!(run.stream_ended(), RunStep::Exit);
    assert_eq!(run.stage(), RunStage::Done);
}

#[test]
fn inspecting_run_never_permits_playback() {
    let mut run = Run::new(RunMode::Inspect);
    assert_eq!(run.begin(), RunStep::Discover);
    assert_eq!(run.discovered(true), RunStep::Connect);
    assert_eq!(run.connected(true), RunStep::Stream);
    assert_eq!(run.stream_ended(), RunStep::Disconnect);
    assert_eq!(run.disconnected(), RunStep::Exit);
}

#[test]
fn run_ends_where_nothing_is_found() {
    let mut run = Run::new(RunMode::Drive);
    run.begin();
    assert_eq!(run.discovered(false), RunStep::Exit);
    assert_eq!(run.stage(), RunStage::Done);
}

#[test]
fn session_that_is_not_ready_is_torn_down() {
    let mut run = Run::new(RunMode::Drive);
    run.begin();
    run.discovered(true);
    assert_eq!(run.connected(false), RunStep::Disconnect);
    assert_eq!(run.disconnected(), RunStep::Exit);
}

#[test]
fn failure_tears_a_session_down_once() {
    let mut run = Run::new(RunMode::Drive);
    run.begin();
    assert_eq!(run.failed(), RunStep::Exit);

    let mut run = Run::new(RunMode::Drive);
    run.begin();
    run.discovered(true);
    assert_eq!(run.failed(), RunStep::Disconnect);
    // the teardown fails too: the run ends all the same
    assert_eq!(run.failed(), RunStep::Exit);
    assert_eq!(run.failed(), RunStep::Exit);
    assert_eq!(run.stage(), RunStage::Done);

    let mut run = Run::new(RunMode::Drive);
    run.begin();
    run.discovered(true);
    run.connected(true);
    run.playback_permitted();
    assert_eq!(run.failed(), RunStep::Disconnect);
    assert_eq!(run.disconnected(), RunStep::Exit);
}

#[test]
fn events_out_of_turn_wind_the_run_down() {
    let mut run = Run::new(RunMode::Drive);
    assert_eq!(run.connected(true), RunStep::Exit);
    assert_eq!(run.stage(), RunStage::Done);
    assert_eq!(run.begin(), RunStep::Exit);

    let mut run = Run::new(RunMode::Drive);
    run.begin();
    run.discovered(true);
    assert_eq!(run.playback_permitted(), RunStep::Disconnect);
    assert_eq!(run.discovered(true), RunStep::Exit);

    let mut run = Run::new(RunMode::LevelsOnly);
    assert_eq!(run.discovered(true), RunStep::Exit);
    let mut run = Run::new(RunMode::Drive);
    assert_eq!(run.disconnected(), RunStep::Exit);
}
