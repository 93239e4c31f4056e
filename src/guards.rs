//! Checks that stand in front of the collection's operations.
use vstd::prelude::*;
use vstd::string::StringExecFns;
use crate::token::State;
use crate::types::Principal;

verus! {

/// Refuses any change while the collection is paused.
pub fn not_paused(state: &State) -> (r: Result<(), String>)
    ensures
        r is Ok <==> !state.is_paused,
        r matches Err(s) ==> s@ == "Canister is paused, try another time"@,
{
    if state.is_paused {
        return Err(String::from_str("Canister is paused, try another time"));
    }
    Ok(())
}

/// Lets only the collection's owner through.
pub fn owner_guard(state: &State, caller: &Principal) -> (r: Result<(), String>)
    ensures
        r is Ok <==> (state.owner matches Some(o) && o@ == caller@),
        state.owner is None ==> (r matches Err(s) && s@ == "Owner not set"@),
        state.owner matches Some(o) && o@ != caller@ ==> (r matches Err(s) && s@
            == "The caller is not the owner of contract"@),
{
    match &state.owner {
        None => Err(String::from_str("Owner not set")),
        Some(o) => if *o == *caller {
            Ok(())
        } else {
            Err(String::from_str("The caller is not the owner of contract"))
        },
    }
}

} // verus!
