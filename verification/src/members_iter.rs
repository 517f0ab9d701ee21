use vstd::prelude::*;
use crate::id::{GuildId, UserId};
use crate::model::Member;
use crate::request::Request;

verus! {

/// How many members one page request asks for.
pub const MEMBER_PAGE_SIZE: u64 = 1000;

/// The state of a walk over all the members of a guild, one page of at
/// most a thousand members at a time: the guild, the members of the last
/// page not handed out yet, the member after which the next page starts
/// (if there is a next page), and whether a page was fetched yet.
#[derive(Debug)]
pub struct MembersIter {
    guild_id: GuildId,
    buffer: Vec<Member>,
    after: Option<UserId>,
    tried_fetch: bool,
}

/// What a walk over the members of a guild looks like from outside.
pub struct MembersIterView {
    pub guild_id: GuildId,
    /// The members still to be handed out, first one first.
    pub pending: Seq<Member>,
    pub after: Option<UserId>,
    pub tried_fetch: bool,
}

/// What to do next in a walk over the members of a guild.
#[derive(Debug, PartialEq)]
pub enum MembersAction {
    /// Perform this request and hand its answer to
    /// `MembersIter::after_fetch`, which tells what the walk gives next.
    Fetch(Request),
    /// Hand out this member.
    Yield(Member),
    /// The walk is over.
    Finish,
}

impl View for MembersIter {
    type V = MembersIterView;

    closed spec fn view(&self) -> MembersIterView {
        MembersIterView {
            guild_id: self.guild_id,
            pending: self.buffer@.reverse(),
            after: self.after,
            tried_fetch: self.tried_fetch,
        }
    }
}

/// What every walk keeps: before the first page is fetched, nothing is
/// held and no next page is known.
pub open spec fn spec_walk_wf(v: MembersIterView) -> bool {
    !v.tried_fetch ==> v.pending.len() == 0 && v.after is None
}

/// A fetched page, or why fetching it failed.
pub open spec fn reply_view<E>(reply: Result<Vec<Member>, E>) -> Result<Seq<Member>, E> {
    match reply {
        Ok(page) => Ok(page@),
        Err(e) => Err(e),
    }
}

/// What the walk gives, and its next state, once the answer to a page
/// request is in: the error of a failed fetch, with the walk unchanged (so
/// the next step asks for the same page again); else the first member of
/// the fetched page, or the end of the walk when the page is empty.
pub open spec fn spec_after_fetch<E>(v: MembersIterView, reply: Result<Seq<Member>, E>) -> (
    Option<Result<Member, E>>,
    MembersIterView,
) {
    match reply {
        Err(e) => (Some(Err(e)), v),
        Ok(page) => {
            let w = spec_after_refresh(v, page);
            if page.len() > 0 {
                (Some(Ok(page[0])), spec_after_pop(w))
            } else {
                (None, w)
            }
        },
    }
}

/// Whether a page must be fetched before the next member can be handed
/// out: no page was fetched yet, or the last one is used up and was full.
pub open spec fn spec_needs_refresh(v: MembersIterView) -> bool {
    (v.pending.len() == 0 && v.after is Some) || !v.tried_fetch
}

/// The request for the next page: at most a thousand members, after the
/// last member of the previous page.
pub open spec fn spec_page_request(v: MembersIterView) -> Request {
    Request::GetGuildMembers {
        guild_id: v.guild_id.0,
        limit: Some(MEMBER_PAGE_SIZE),
        after: match v.after {
            Some(u) => Some(u.0),
            None => None,
        },
    }
}

/// The member after which the page following `page` starts: its
/// thousandth member, if it has one (a shorter page is the last one).
pub open spec fn spec_next_after(page: Seq<Member>) -> Option<UserId> {
    if page.len() >= MEMBER_PAGE_SIZE {
        Some(page[MEMBER_PAGE_SIZE - 1].user.id)
    } else {
        None
    }
}

/// The walk once `page` has been fetched.
pub open spec fn spec_after_refresh(v: MembersIterView, page: Seq<Member>) -> MembersIterView {
    MembersIterView {
        guild_id: v.guild_id,
        pending: page,
        after: spec_next_after(page),
        tried_fetch: true,
    }
}

/// The walk once its next member has been handed out.
pub open spec fn spec_after_pop(v: MembersIterView) -> MembersIterView {
    MembersIterView { pending: v.pending.drop_first(), ..v }
}

/// The walk after `n` members have been handed out.
pub open spec fn spec_after_pops(v: MembersIterView, n: nat) -> MembersIterView
    decreases n,
{
    if n == 0 {
        v
    } else {
        spec_after_pops(spec_after_pop(v), (n - 1) as nat)
    }
}

/// What a step of the walk does from state `v`.
pub open spec fn spec_step_action(v: MembersIterView) -> MembersAction {
    if spec_needs_refresh(v) {
        MembersAction::Fetch(spec_page_request(v))
    } else if v.pending.len() > 0 {
        MembersAction::Yield(v.pending[0])
    } else {
        MembersAction::Finish
    }
}

/// The state after a step of the walk from state `v`.
pub open spec fn spec_step_state(v: MembersIterView) -> MembersIterView {
    if !spec_needs_refresh(v) && v.pending.len() > 0 {
        spec_after_pop(v)
    } else {
        v
    }
}

/// Handing out `n` members of the held ones leaves the rest, in order.
proof fn lemma_after_pops(v: MembersIterView, n: nat)
    requires
        n <= v.pending.len(),
    ensures
        spec_after_pops(v, n) == (MembersIterView { pending: v.pending.skip(n as int), ..v }),
    decreases n,
{
    if n > 0 {
        let w = spec_after_pop(v);
        lemma_after_pops(w, (n - 1) as nat);
        assert(w.pending.skip((n - 1) as int) =~= v.pending.skip(n as int));
    }
    else {
        assert(v.pending.skip(0) =~= v.pending);
    }
}

/// A walk starts by fetching the first page of members, which starts at
/// the beginning of the member list.
pub proof fn law_walk_starts_with_first_page(guild_id: GuildId)
    ensures
        spec_step_action(MembersIterView {
            guild_id,
            pending: Seq::<Member>::empty(),
            after: None,
            tried_fetch: false,
        }) == MembersAction::Fetch(
            Request::GetGuildMembers {
                guild_id: guild_id.0,
                limit: Some(MEMBER_PAGE_SIZE),
                after: None,
            },
        ),
{
}

/// Once a page has been fetched, the walk hands out its members one per
/// step, in the order of the page, without fetching in between; when the
/// page is used up, it fetches the page that starts after the thousandth
/// member if the page was full, and ends if it was shorter.
pub proof fn law_page_handed_out_in_order(v: MembersIterView, page: Seq<Member>)
    ensures
        forall|k: nat| k < page.len() ==> #[trigger] spec_step_action(
            spec_after_pops(spec_after_refresh(v, page), k),
        ) == MembersAction::Yield(page[k as int]),
        forall|k: nat| k < page.len() ==> #[trigger] spec_step_state(
            spec_after_pops(spec_after_refresh(v, page), k),
        ) == spec_after_pops(spec_after_refresh(v, page), k + 1),
        spec_step_action(spec_after_pops(spec_after_refresh(v, page), page.len())) == if page.len()
            >= MEMBER_PAGE_SIZE {
            MembersAction::Fetch(
                Request::GetGuildMembers {
                    guild_id: v.guild_id.0,
                    limit: Some(MEMBER_PAGE_SIZE),
                    after: Some(page[MEMBER_PAGE_SIZE - 1].user.id.0),
                },
            )
        } else {
            MembersAction::Finish
        },
{
    let w = spec_after_refresh(v, page);
    assert forall|k: nat| k < page.len() implies #[trigger] spec_after_pops(w, k) == (
    MembersIterView { pending: page.skip(k as int), ..w }) && spec_step_action(
        spec_after_pops(w, k),
    ) == MembersAction::Yield(page[k as int]) && spec_step_state(spec_after_pops(w, k))
        == spec_after_pops(w, k + 1) by {
        lemma_after_pops(w, k);
        lemma_after_pops(w, k + 1);
        assert(page.skip(k as int).drop_first() =~= page.skip(k + 1 as int));
    }
    lemma_after_pops(w, page.len());
    assert(page.skip(page.len() as int) =~= Seq::<Member>::empty());
}

impl MembersIter {
    #[verifier::type_invariant]
    spec fn inv(self) -> bool {
        !self.tried_fetch ==> self.buffer@.len() == 0 && self.after is None
    }

    /// A walk over the members of `guild_id` that has fetched nothing yet.
    pub fn new(guild_id: GuildId) -> (it: MembersIter)
        ensures
            it@.guild_id == guild_id,
            it@.pending == Seq::<Member>::empty(),
            it@.after is None,
            !it@.tried_fetch,
    {
        let it = MembersIter { guild_id, buffer: Vec::new(), after: None, tried_fetch: false };
        proof {
            assert(it@.pending =~= Seq::<Member>::empty());
        }
        it
    }

    /// Whether a page must be fetched before the next member can be
    /// handed out.
    pub fn needs_refresh(&self) -> (b: bool)
        ensures
            b == spec_needs_refresh(self@),
            spec_walk_wf(self@),
    {
        proof {
            use_type_invariant(self);
        }
        (self.buffer.len() == 0 && self.after.is_some()) || !self.tried_fetch
    }

    /// The request that fetches the next page.
    pub fn page_request(&self) -> (r: Request)
        ensures
            r == spec_page_request(self@),
            r matches Request::GetGuildMembers { guild_id, limit, after } && guild_id
                == self@.guild_id.0 && limit == Some(1000u64) && (self@.after matches Some(u)
                ==> after == Some(u.0)) && (self@.after is None ==> after is None),
    {
        let after = match self.after {
            Some(u) => Some(u.0),
            None => None,
        };
        Request::GetGuildMembers { guild_id: self.guild_id.0, limit: Some(MEMBER_PAGE_SIZE), after }
    }

    /// Takes in a fetched page: its members are handed out next, in the
    /// order of the page, and the next page starts after its thousandth
    /// member, if it has one.
    pub fn refresh(&mut self, page: Vec<Member>)
        ensures
            final(self)@ == spec_after_refresh(old(self)@, page@),
            spec_walk_wf(final(self)@),
    {
        let ghost original = page@;
        let next_after = if page.len() >= 1000 {
            Some(page[999].user.id)
        } else {
            None
        };
        let mut page = page;
        let mut reversed: Vec<Member> = Vec::new();
        while page.len() > 0
            invariant
                page@.len() <= original.len(),
                page@ == original.subrange(0, page@.len() as int),
                reversed@.reverse() == original.subrange(page@.len() as int, original.len() as int),
            decreases page@.len(),
        {
            let ghost before = reversed@;
            let m = page.pop().unwrap();
            reversed.push(m);
            proof {
                let n = page@.len() as int;
                let tail = original.subrange(n, original.len() as int);
                assert(m == original[n]);
                assert(before.reverse() == original.subrange(n + 1, original.len() as int));
                assert(reversed@ == before.push(m));
                assert forall|i: int| 0 <= i < tail.len() implies #[trigger] reversed@.reverse()[i]
                    == tail[i] by {
                    if i > 0 {
                        assert(reversed@.reverse()[i] == before.reverse()[i - 1]);
                    }
                }
                assert(reversed@.reverse() =~= tail);
            }
        }
        self.tried_fetch = true;
        self.buffer = reversed;
        self.after = next_after;
        proof {
            assert(self@.pending =~= original);
        }
    }

    /// Hands out the next member held, if any.
    pub fn next_member(&mut self) -> (m: Option<Member>)
        ensures
            old(self)@.pending.len() > 0 ==> m == Some(old(self)@.pending[0])
                && final(self)@ == spec_after_pop(old(self)@),
            old(self)@.pending.len() == 0 ==> m is None && final(self)@ == old(self)@,
            spec_walk_wf(final(self)@),
    {
        proof {
            use_type_invariant(&*self);
        }
        let mut buffer: Vec<Member> = Vec::new();
        std::mem::swap(&mut buffer, &mut self.buffer);
        let m = buffer.pop();
        self.buffer = buffer;
        proof {
            if old(self)@.pending.len() > 0 {
                assert(self@.pending =~= old(self)@.pending.drop_first());
            }
        }
        m
    }

    /// Decides the next step of the walk: fetch a page when one is due,
    /// else hand out the next member, else end.
    pub fn step(&mut self) -> (action: MembersAction)
        ensures
            action == spec_step_action(old(self)@),
            final(self)@ == spec_step_state(old(self)@),
            spec_walk_wf(final(self)@),
    {
        if self.needs_refresh() {
            MembersAction::Fetch(self.page_request())
        } else {
            match self.next_member() {
                Some(m) => MembersAction::Yield(m),
                None => MembersAction::Finish,
            }
        }
    }

    /// Takes in the answer to the page request of a `MembersAction::Fetch`
    /// and tells what the walk gives next: a failed fetch gives its error
    /// and leaves the walk as it was, so that the next step asks for the
    /// same page again; a fetched page gives its first member, or ends the
    /// walk when it is empty.
    pub fn after_fetch<E>(&mut self, reply: Result<Vec<Member>, E>) -> (item: Option<
        Result<Member, E>,
    >)
        ensures
            (item, final(self)@) == spec_after_fetch(old(self)@, reply_view(reply)),
            spec_walk_wf(final(self)@),
    {
        match reply {
            Err(e) => {
                proof {
                    use_type_invariant(&*self);
                }
                Some(Err(e))
            },
            Ok(page) => {
                self.refresh(page);
                match self.next_member() {
                    Some(m) => Some(Ok(m)),
                    None => None,
                }
            },
        }
    }
}

} // verus!
