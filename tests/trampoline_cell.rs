use lovely_android::cell::{CellAction, CellState, TrampolineCell};
use lovely_android::hook::HookError;

#[test]
fn first_request_installs() {
    let mut cell = TrampolineCell::new();
    assert_eq!(cell.state(), CellState::Unresolved);
    assert_eq!(cell.request(), CellAction::Install);
    assert_eq!(cell.state(), CellState::Installing);
}

#[test]
fn racing_first_loads_share_one_install() {
    let mut cell = TrampolineCell::new();
    let first = cell.request();
    let second = cell.request();
    assert_eq!(first, CellAction::Install);
    assert_eq!(second, CellAction::Wait);
    assert_eq!(cell.finish_install(Ok(0x4000)), CellAction::Use(0x4000));
    assert_eq!(cell.request(), CellAction::Use(0x4000));
    assert_eq!(cell.request(), CellAction::Use(0x4000));
}

#[test]
fn resolved_cell_ignores_stray_completion() {
    let mut cell = TrampolineCell::new();
    cell.request();
    cell.finish_install(Ok(7));
    assert_eq!(cell.finish_install(Ok(9)), CellAction::Wait);
    assert_eq!(cell.state(), CellState::Resolved(7));
    assert_eq!(cell.request(), CellAction::Use(7));
}

#[test]
fn failed_install_poisons_cell() {
    let mut cell = TrampolineCell::new();
    cell.request();
    assert_eq!(cell.finish_install(Err(HookError::InstallDenied)), CellAction::Fail);
    assert_eq!(cell.state(), CellState::Poisoned);
    assert_eq!(cell.request(), CellAction::Fail);
}

#[test]
fn completion_without_install_changes_nothing() {
    let mut cell = TrampolineCell::new();
    assert_eq!(cell.finish_install(Ok(3)), CellAction::Wait);
    assert_eq!(cell.state(), CellState::Unresolved);
}
