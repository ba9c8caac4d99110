use crate::channel::Channel;
use vstd::prelude::*;

verus! {

/// What the caller of `PlayerController::begin_play` is to do, in this order:
/// ask the handle in `terminate`, if there is one, to end; then start the
/// player with `url` as its one argument.
#[derive(Debug, PartialEq, Eq)]
pub struct PlayRequest<H> {
    pub terminate: Option<H>,
    pub url: String,
}

/// One thing that is asked of the outside world.
pub enum Effect<H> {
    /// The process behind this handle is asked to end.
    Terminate(H),
    /// A player is started with this argument.
    Spawn(Seq<char>),
}

/// What a play asks for, given the handle that is owned when it begins: the
/// owned handle's end, if there is one, and after it the new player's start.
pub open spec fn play_effects<H>(owned: Option<H>, url: Seq<char>) -> Seq<Effect<H>> {
    match owned {
        Some(handle) => seq![Effect::Terminate(handle), Effect::Spawn(url)],
        None => seq![Effect::Spawn(url)],
    }
}

/// The handle that is owned once a start has been settled: the new handle
/// where the start gave one, and the handle owned before where it gave none.
pub open spec fn owner_after_start<H>(owned: Option<H>, started: Option<H>) -> Option<H> {
    match started {
        Some(handle) => Some(handle),
        None => owned,
    }
}

/// The handle that a settled start pushes out of the slot: the one owned
/// before, where the start gave a new one.
pub open spec fn displaced_by_start<H>(owned: Option<H>, started: Option<H>) -> Option<H> {
    match started {
        Some(_) => owned,
        None => None,
    }
}

impl<H> PlayRequest<H> {
    /// What the request asks for, in order.
    pub open spec fn effects(&self) -> Seq<Effect<H>> {
        play_effects(self.terminate, self.url@)
    }
}

/// The owner of the one slot for the handle of a running player.
pub struct PlayerController<H> {
    slot: Option<H>,
}

impl<H> PlayerController<H> {
    /// The handle that the controller owns, if it owns one.
    pub closed spec fn owned(&self) -> Option<H> {
        self.slot
    }

    /// A controller that owns no handle.
    pub fn new() -> (controller: Self)
        ensures
            controller.owned() is None,
    {
        PlayerController { slot: None }
    }

    /// Whether a handle is owned.
    pub fn is_playing(&self) -> (playing: bool)
        ensures
            playing == self.owned() is Some,
    {
        self.slot.is_some()
    }

    /// The owned handle.
    pub fn current(&self) -> (handle: Option<&H>)
        ensures
            handle is Some <==> self.owned() is Some,
            handle is Some ==> *handle->Some_0 == self.owned()->Some_0,
    {
        self.slot.as_ref()
    }

    /// Begins a play of `channel`. The owned handle, if there is one, leaves
    /// the controller inside the request, to be terminated before anything is
    /// started, and the controller owns nothing until the start is settled.
    pub fn begin_play(&mut self, channel: &Channel) -> (request: PlayRequest<H>)
        ensures
            request.terminate == old(self).owned(),
            request.url@ == channel.url@,
            request.effects() == play_effects(old(self).owned(), channel.url@),
            final(self).owned() is None,
    {
        let terminate = self.slot.take();
        PlayRequest { terminate, url: channel.url.clone() }
    }

    /// Settles the start that a request asked for. A new handle becomes the
    /// owned one; a start that failed leaves the slot as it is, which after
    /// `begin_play` is empty. The result is a handle that the new one pushed
    /// out and that the caller is to terminate: after `begin_play` there is
    /// none.
    pub fn finish_play(&mut self, started: Option<H>) -> (displaced: Option<H>)
        ensures
            final(self).owned() == owner_after_start(old(self).owned(), started),
            displaced == displaced_by_start(old(self).owned(), started),
    {
        match started {
            Some(handle) => {
                let displaced = self.slot.take();
                self.slot = Some(handle);
                displaced
            },
            None => None,
        }
    }
}

/// One play from beginning to end: the URL of the channel that was chosen, and
/// what the start of the player gave.
pub struct Play<H> {
    pub url: Seq<char>,
    pub started: Option<H>,
}

/// The handle that is owned after a run of plays, each begun and then settled,
/// by a controller that owned `owned` before the first.
pub open spec fn owner_after<H>(owned: Option<H>, plays: Seq<Play<H>>) -> Option<H> {
    if plays.len() == 0 {
        owned
    } else {
        owner_after_start(None, plays.last().started)
    }
}

/// Everything that a run of plays asks of the outside world, in order.
pub open spec fn effects_of<H>(owned: Option<H>, plays: Seq<Play<H>>) -> Seq<Effect<H>>
    decreases plays.len(),
{
    if plays.len() == 0 {
        Seq::empty()
    } else {
        effects_of(owned, plays.drop_last()) + play_effects(
            owner_after(owned, plays.drop_last()),
            plays.last().url,
        )
    }
}

/// A play that begins while no handle is owned asks for no termination, only
/// for the start; and once the start has given a handle, that handle is the
/// one owned.
pub proof fn lemma_play_from_empty<H>(url: Seq<char>, handle: H)
    ensures
        play_effects(None::<H>, url) == seq![Effect::<H>::Spawn(url)],
        owner_after(None::<H>, seq![Play { url, started: Some(handle) }]) == Some(handle),
{
}

/// After a play whose start failed no handle is owned, whatever was owned
/// before: the handle that the play terminated does not come back.
pub proof fn lemma_failed_start_owns_nothing<H>(
    owned: Option<H>,
    plays: Seq<Play<H>>,
    url: Seq<char>,
)
    ensures
        owner_after(owned, plays.push(Play { url, started: None })) is None,
{
}

/// After any run of plays that is not empty, the owned handle is the one that
/// the last play started, and no other.
pub proof fn lemma_last_play_owns<H>(owned: Option<H>, plays: Seq<Play<H>>)
    requires
        plays.len() > 0,
    ensures
        owner_after(owned, plays) == plays.last().started,
{
}

/// Each play after the first asks, before it starts anything, for the end of
/// the handle that the play before it started, where that play started one.
pub proof fn lemma_previous_handle_terminated_first<H>(
    owned: Option<H>,
    plays: Seq<Play<H>>,
    k: int,
)
    requires
        0 < k < plays.len(),
    ensures
        effects_of(owned, plays.take(k + 1)) == effects_of(owned, plays.take(k)) + play_effects(
            plays[k - 1].started,
            plays[k].url,
        ),
{
    assert(plays.take(k + 1).drop_last() =~= plays.take(k));
    assert(plays.take(k).last() == plays[k - 1]);
}

/// Three plays in a row on a controller that owns nothing, each start giving a
/// handle: the first player is started; the first handle is terminated, then
/// the second player is started; the second handle is terminated, then the
/// third player is started; and the third handle is the one owned at the end.
pub proof fn lemma_three_plays<H>(a: Seq<char>, b: Seq<char>, c: Seq<char>, ha: H, hb: H, hc: H)
    ensures
        ({
            let plays = seq![
                Play { url: a, started: Some(ha) },
                Play { url: b, started: Some(hb) },
                Play { url: c, started: Some(hc) },
            ];
            &&& owner_after(None, plays) == Some(hc)
            &&& effects_of(None, plays) == seq![
                Effect::Spawn(a),
                Effect::Terminate(ha),
                Effect::Spawn(b),
                Effect::Terminate(hb),
                Effect::Spawn(c),
            ]
        }),
{
    let plays = seq![
        Play { url: a, started: Some(ha) },
        Play { url: b, started: Some(hb) },
        Play { url: c, started: Some(hc) },
    ];
    let two = plays.drop_last();
    let one = two.drop_last();
    assert(one.drop_last() =~= Seq::<Play<H>>::empty());
    reveal_with_fuel(effects_of, 4);
    assert(effects_of(None, one) =~= seq![Effect::Spawn(a)]);
    assert(effects_of(None, two) =~= seq![Effect::Spawn(a), Effect::Terminate(ha), Effect::Spawn(b)]);
    assert(effects_of(None, plays) =~= seq![
        Effect::Spawn(a),
        Effect::Terminate(ha),
        Effect::Spawn(b),
        Effect::Terminate(hb),
        Effect::Spawn(c),
    ]);
}

} // verus!
