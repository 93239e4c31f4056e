use giga721::guards::{not_paused, owner_guard};
use giga721::token::State;
use giga721::types::Principal;

#[test]
fn guards_follow_state() {
    let owner = Principal::from_text("2vxsx-fae");
    let mut state = State::new(Some(owner.copy()), String::from("n"), String::from("s"), String::from("d"), 10);
    assert_eq!(not_paused(&state), Err(String::from("Canister is paused, try another time")));
    state.is_paused = false;
    assert_eq!(not_paused(&state), Ok(()));
    assert_eq!(owner_guard(&state, &owner), Ok(()));
    let other = Principal::from_text("aaaaa-aa");
    assert_eq!(owner_guard(&state, &other), Err(String::from("The caller is not the owner of contract")));
    state.owner = None;
    assert_eq!(owner_guard(&state, &owner), Err(String::from("Owner not set")));
}
