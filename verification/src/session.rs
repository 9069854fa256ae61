//! The session protocol: how one invocation's streams are opened and
//! accepted.
//!
//! Per invocation the initiator opens the Command Channel first and the
//! Stdio Channel second, both bidirectional, and the responder opens the one
//! unidirectional Stderr Channel.  The transport delivers bidirectional
//! streams to the acceptor in the order their opener opened them, and the
//! unidirectional stream likewise, so an accept never misroutes: the
//! responder's first accepted bidirectional stream is the Command Channel,
//! its second the Stdio Channel, and the initiator's accepted unidirectional
//! stream is the Stderr Channel.  An accept issued before the peer's
//! matching open blocks (here: yields nothing and changes nothing) until it
//! is satisfied or the connection is lost.  [`Wire`] models one connection's
//! stream bookkeeping; the lemmas state the ordering contract.
use vstd::prelude::*;

verus! {

/// The three logical channels of one invocation.
#[derive(PartialEq, Eq, Structural, Clone, Copy, Debug)]
pub enum ChannelKind {
    /// Bidirectional: argument line one way, 4-byte exit code back.
    Command,
    /// Bidirectional: raw stdin bytes one way, raw stdout bytes back.
    Stdio,
    /// Unidirectional, opened by the responder: raw stderr bytes.
    Stderr,
}

/// Spec-level image of one connection's streams: what each peer has opened,
/// in order, and how many of those streams the other peer has accepted.
pub struct WireModel {
    /// Bidirectional streams the initiator opened, in order, by the channel
    /// each is meant to carry.
    pub bidi_opened: Seq<ChannelKind>,
    /// How many of them the responder has accepted.
    pub bidi_accepted: nat,
    /// Unidirectional streams the responder opened, in order.
    pub uni_opened: Seq<ChannelKind>,
    /// How many of them the initiator has accepted.
    pub uni_accepted: nat,
}

/// No stream is accepted before it is opened.
pub open spec fn wire_wf(w: WireModel) -> bool {
    &&& w.bidi_accepted <= w.bidi_opened.len()
    &&& w.uni_accepted <= w.uni_opened.len()
}

/// The initiator follows the session protocol: it opens at most the Command
/// Channel and then the Stdio Channel, in that order.
pub open spec fn initiator_order(w: WireModel) -> bool {
    &&& w.bidi_opened.len() <= 2
    &&& (w.bidi_opened.len() >= 1 ==> w.bidi_opened[0] == ChannelKind::Command)
    &&& (w.bidi_opened.len() >= 2 ==> w.bidi_opened[1] == ChannelKind::Stdio)
}

/// The responder follows the session protocol: it opens at most the one
/// Stderr Channel.
pub open spec fn responder_order(w: WireModel) -> bool {
    &&& w.uni_opened.len() <= 1
    &&& (w.uni_opened.len() >= 1 ==> w.uni_opened[0] == ChannelKind::Stderr)
}

/// State after the responder tries to accept a bidirectional stream, and
/// what it gets: the oldest not yet accepted one, or nothing while the
/// matching open has not been issued.
pub open spec fn accept_bidi_step(w: WireModel) -> (WireModel, Option<ChannelKind>) {
    if w.bidi_accepted < w.bidi_opened.len() {
        (
            (WireModel {
                bidi_opened: w.bidi_opened,
                bidi_accepted: w.bidi_accepted + 1,
                uni_opened: w.uni_opened,
                uni_accepted: w.uni_accepted,
            }),
            Some(w.bidi_opened[w.bidi_accepted as int]),
        )
    } else {
        (w, None)
    }
}

/// State after the initiator tries to accept a unidirectional stream, and
/// what it gets.
pub open spec fn accept_uni_step(w: WireModel) -> (WireModel, Option<ChannelKind>) {
    if w.uni_accepted < w.uni_opened.len() {
        (
            (WireModel {
                bidi_opened: w.bidi_opened,
                bidi_accepted: w.bidi_accepted,
                uni_opened: w.uni_opened,
                uni_accepted: w.uni_accepted + 1,
            }),
            Some(w.uni_opened[w.uni_accepted as int]),
        )
    } else {
        (w, None)
    }
}

/// Protocol ordering: while both peers follow the protocol, no accept ever
/// misroutes — the responder's first accepted bidirectional stream carries
/// the Command Channel and its second the Stdio Channel, the initiator's
/// accepted unidirectional stream carries the Stderr Channel — and an accept
/// issued before the peer's matching open changes nothing: it blocks until
/// satisfied or the connection is lost.
pub proof fn lemma_no_misroute(w: WireModel)
    requires
        wire_wf(w),
        initiator_order(w),
        responder_order(w),
    ensures
        ({
            let (wb, rb) = accept_bidi_step(w);
            let (wu, ru) = accept_uni_step(w);
            &&& (rb matches Some(k) ==> (w.bidi_accepted == 0 ==> k == ChannelKind::Command) && (
            w.bidi_accepted == 1 ==> k == ChannelKind::Stdio))
            &&& (rb is None ==> wb == w)
            &&& (ru matches Some(k) ==> k == ChannelKind::Stderr)
            &&& (ru is None ==> wu == w)
        }),
{
}

/// One connection's stream bookkeeping.  Its model ([`WireModel`], reached
/// by `@`) evolves in lock step with the spec transitions above, so the
/// ordering law holds of every run.
pub struct Wire {
    bidi_opened: Vec<ChannelKind>,
    bidi_accepted: usize,
    uni_opened: Vec<ChannelKind>,
    uni_accepted: usize,
}

impl View for Wire {
    type V = WireModel;

    closed spec fn view(&self) -> WireModel {
        WireModel {
            bidi_opened: self.bidi_opened@,
            bidi_accepted: self.bidi_accepted as nat,
            uni_opened: self.uni_opened@,
            uni_accepted: self.uni_accepted as nat,
        }
    }
}

impl Wire {
    /// A fresh connection: nothing opened, nothing accepted.
    pub fn new() -> (w: Wire)
        ensures
            w@.bidi_opened == Seq::<ChannelKind>::empty(),
            w@.bidi_accepted == 0,
            w@.uni_opened == Seq::<ChannelKind>::empty(),
            w@.uni_accepted == 0,
            wire_wf(w@),
    {
        Wire { bidi_opened: Vec::new(), bidi_accepted: 0, uni_opened: Vec::new(), uni_accepted: 0 }
    }

    /// The initiator opens one bidirectional stream meant to carry `k`.
    pub fn open_bidi(&mut self, k: ChannelKind)
        requires
            old(self)@.bidi_opened.len() < 0xffff_ffff_ffff_ffff,
        ensures
            final(self)@.bidi_opened == old(self)@.bidi_opened.push(k),
            final(self)@.bidi_accepted == old(self)@.bidi_accepted,
            final(self)@.uni_opened == old(self)@.uni_opened,
            final(self)@.uni_accepted == old(self)@.uni_accepted,
            wire_wf(old(self)@) ==> wire_wf(final(self)@),
    {
        self.bidi_opened.push(k);
    }

    /// The responder opens one unidirectional stream meant to carry `k`.
    pub fn open_uni(&mut self, k: ChannelKind)
        requires
            old(self)@.uni_opened.len() < 0xffff_ffff_ffff_ffff,
        ensures
            final(self)@.uni_opened == old(self)@.uni_opened.push(k),
            final(self)@.bidi_opened == old(self)@.bidi_opened,
            final(self)@.bidi_accepted == old(self)@.bidi_accepted,
            final(self)@.uni_accepted == old(self)@.uni_accepted,
            wire_wf(old(self)@) ==> wire_wf(final(self)@),
    {
        self.uni_opened.push(k);
    }

    /// The responder accepts the oldest bidirectional stream not yet
    /// accepted, or learns that it would block.
    pub fn accept_bidi(&mut self) -> (r: Option<ChannelKind>)
        requires
            wire_wf(old(self)@),
        ensures
            (final(self)@, r) == accept_bidi_step(old(self)@),
            wire_wf(final(self)@),
    {
        if self.bidi_accepted < self.bidi_opened.len() {
            let k = self.bidi_opened[self.bidi_accepted];
            self.bidi_accepted = self.bidi_accepted + 1;
            Some(k)
        } else {
            None
        }
    }

    /// The initiator accepts the oldest unidirectional stream not yet
    /// accepted, or learns that it would block.
    pub fn accept_uni(&mut self) -> (r: Option<ChannelKind>)
        requires
            wire_wf(old(self)@),
        ensures
            (final(self)@, r) == accept_uni_step(old(self)@),
            wire_wf(final(self)@),
    {
        if self.uni_accepted < self.uni_opened.len() {
            let k = self.uni_opened[self.uni_accepted];
            self.uni_accepted = self.uni_accepted + 1;
            Some(k)
        } else {
            None
        }
    }
}

} // verus!
