use vstd::prelude::*;

verus! {

/// What the window check answers: always `true`.
pub open spec fn window_check_answer() -> bool {
    true
}

/// The command that the front end calls to learn whether the native window
/// layer is there. It always answers `true`, holds no state and cannot fail.
pub fn check_tauri_window() -> (r: bool)
    ensures
        r == window_check_answer(),
        r == true,
{
    true
}

/// However many answers of the window check are gathered, in whatever order
/// and whatever else ran between them, they are all `true` and all agree.
pub proof fn lemma_window_check_answers_agree(answers: Seq<bool>)
    requires
        forall|i: int| 0 <= i < answers.len() ==> answers[i] == window_check_answer(),
    ensures
        forall|i: int, j: int|
            0 <= i < answers.len() && 0 <= j < answers.len() ==> answers[i] == answers[j],
        forall|i: int| 0 <= i < answers.len() ==> answers[i],
{
}

} // verus!
