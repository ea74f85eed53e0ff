//! Reports of state changes, and what comes after them.

use vstd::prelude::*;

use crate::evm::MultiDatabaseCommit;

verus! {

/// What changes the state after the transactions of a block.
#[derive(Debug, Clone, Copy, PartialEq, Eq, Structural)]
pub enum StateChangePostBlockSource {
    /// Balances increase.
    BalanceIncrements,
}

/// What changes the state.
#[derive(Debug, Clone, Copy, PartialEq, Eq, Structural)]
pub enum StateChangeSource {
    /// The transaction with this number in the block, from 0.
    Transaction(usize),
    /// What is done after the transactions.
    PostBlock(StateChangePostBlockSource),
}

/// Is told of state changes.
pub trait OnStateHook<State> {
    /// Takes notice of a state change.
    fn on_state(&mut self, source: StateChangeSource, state: &State);
}

/// A hook that does nothing.
#[derive(Debug, Clone, Copy, PartialEq, Eq, Structural)]
pub struct NoStateHook;

impl<State> OnStateHook<State> for NoStateHook {
    fn on_state(&mut self, source: StateChangeSource, state: &State)
        ensures
            *final(self) == *old(self),
    {
    }
}

/// The state of a transaction that has been reported. No other state is committed.
pub struct ReportedState<State> {
    state: State,
}

impl<State> ReportedState<State> {
    /// The state.
    pub closed spec fn state(self) -> State {
        self.state
    }

    /// Reports `state` to the hook, if there is one, once.
    pub fn report<H: OnStateHook<State>>(
        hook: &mut Option<H>,
        source: StateChangeSource,
        state: State,
    ) -> (reported: Self)
        ensures
            reported.state() == state,
            match *old(hook) {
                None => *final(hook) is None,
                Some(before) => exists|told: &mut H|
                    {
                        &&& *told == before
                        &&& *final(hook) == Some(*final(told))
                        &&& #[trigger] call_ensures(
                            <H as OnStateHook<State>>::on_state,
                            (told, source, &state),
                            (),
                        )
                    },
            },
    {
        if let Some(told) = hook {
            told.on_state(source, &state);
        }
        ReportedState { state }
    }

    /// Returns a reference to the state.
    pub fn get(&self) -> (state: &State)
        ensures
            *state == self.state(),
    {
        &self.state
    }

    /// Commits the state to the database `db`.
    pub fn commit<DB: MultiDatabaseCommit<State>>(self, db: &mut DB)
        ensures
            exists|committed: &mut DB|
                {
                    &&& *committed == *old(db)
                    &&& *final(committed) == *final(db)
                    &&& #[trigger] call_ensures(
                        <DB as MultiDatabaseCommit<State>>::commit_multi,
                        (committed, self.state()),
                        (),
                    )
                },
    {
        let state = self.state;
        assert(state == self.state());
        db.commit_multi(state);
    }
}

} // verus!
