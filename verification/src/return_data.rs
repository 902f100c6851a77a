//! The pair of handles that a request gives back.

use crate::controller::{Origin, Outcome};
use vstd::prelude::*;

verus! {

/// The session and the volume control that a request gives back to its caller,
/// who passes them in again with the next request. `S` is the host's handle to
/// a session, `G` its handle to a volume control.
pub struct ReturnData<S, G> {
    audio_ctx: Option<S>,
    gain_node: Option<G>,
}

impl<S, G> View for ReturnData<S, G> {
    type V = (Option<S>, Option<G>);

    /// The session, then the volume control.
    closed spec fn view(&self) -> (Option<S>, Option<G>) {
        (self.audio_ctx, self.gain_node)
    }
}

impl Origin {
    /// Of two handles, the one that this origin names.
    pub open spec fn select_spec<T>(self, supplied: Option<T>, created: Option<T>) -> Option<T> {
        match self {
            Origin::Supplied => supplied,
            Origin::Created => created,
        }
    }

    /// Picks the handle that this origin names, and drops the other.
    pub fn select<T>(self, supplied: Option<T>, created: Option<T>) -> (handle: Option<T>)
        ensures
            handle == self.select_spec(supplied, created),
    {
        match self {
            Origin::Supplied => supplied,
            Origin::Created => created,
        }
    }
}

impl<S, G> ReturnData<S, G> {
    /// A result that holds no handle yet.
    pub fn new() -> (data: Self)
        ensures
            data@ == (None::<S>, None::<G>),
    {
        ReturnData { audio_ctx: None, gain_node: None }
    }

    /// The result that `outcome` names: each handle is taken from `supplied`,
    /// which holds what the caller passed in, or from `created`, which holds
    /// what was made while the request was carried out.
    pub fn assemble(outcome: Outcome, supplied: Self, created: Self) -> (data: Self)
        ensures
            data@ == (
                outcome.session.select_spec(supplied@.0, created@.0),
                outcome.volume_control.select_spec(supplied@.1, created@.1),
            ),
    {
        ReturnData {
            audio_ctx: outcome.session.select(supplied.audio_ctx, created.audio_ctx),
            gain_node: outcome.volume_control.select(supplied.gain_node, created.gain_node),
        }
    }

    /// Replaces the session, and leaves the volume control as it is.
    pub fn set_audio_ctx(&mut self, audio_ctx: Option<S>)
        ensures
            final(self)@ == (audio_ctx, old(self)@.1),
    {
        self.audio_ctx = audio_ctx;
    }

    /// Replaces the volume control, and leaves the session as it is.
    pub fn set_gain_node(&mut self, gain_node: Option<G>)
        ensures
            final(self)@ == (old(self)@.0, gain_node),
    {
        self.gain_node = gain_node;
    }

    /// A clone of the session's handle, if there is one.
    pub fn get_audio_ctx(&self) -> (audio_ctx: Option<S>) where S: Clone
        ensures
            self@.0 is None ==> audio_ctx is None,
            self@.0 is Some ==> audio_ctx is Some && cloned(self@.0->0, audio_ctx->0),
    {
        self.audio_ctx.clone()
    }

    /// A clone of the volume control's handle, if there is one.
    pub fn get_gain_node(&self) -> (gain_node: Option<G>) where G: Clone
        ensures
            self@.1 is None ==> gain_node is None,
            self@.1 is Some ==> gain_node is Some && cloned(self@.1->0, gain_node->0),
    {
        self.gain_node.clone()
    }
}

} // verus!
