use vstd::prelude::*;
use crate::id::{GuildId, UserId};
use crate::members_iter::{
    spec_after_fetch, spec_after_pop, spec_after_refresh, spec_needs_refresh, spec_next_after,
    spec_page_request, spec_step_action, spec_step_state, MembersAction, MembersIterView,
    MEMBER_PAGE_SIZE,
};
use crate::model::Member;
use crate::request::Request;

verus! {

/// One poll of the stream of members, against a server that answers the
/// page request `r` with `server(r)`: what the stream gives (`None` ends
/// it) and the walk after it. A poll fetches a page when one is due and
/// then goes on as `MembersIter::after_fetch` does; otherwise it hands out
/// the next member held, or ends.
pub open spec fn spec_poll<E>(
    v: MembersIterView,
    server: spec_fn(Request) -> Result<Seq<Member>, E>,
) -> (Option<Result<Member, E>>, MembersIterView) {
    if spec_needs_refresh(v) {
        spec_after_fetch(v, server(spec_page_request(v)))
    } else if v.pending.len() > 0 {
        (Some(Ok(v.pending[0])), spec_after_pop(v))
    } else {
        (None, v)
    }
}

/// A poll is a step of the walk, followed, when the step asks for a page,
/// by handing the server's answer to `MembersIter::after_fetch`.
pub proof fn law_poll_is_step_then_fetch<E>(
    v: MembersIterView,
    server: spec_fn(Request) -> Result<Seq<Member>, E>,
)
    ensures
        spec_poll(v, server) == match spec_step_action(v) {
            MembersAction::Fetch(r) => spec_after_fetch(spec_step_state(v), server(r)),
            MembersAction::Yield(m) => (Some(Ok::<Member, E>(m)), spec_step_state(v)),
            MembersAction::Finish => (None, spec_step_state(v)),
        },
{
}

/// What polling the stream of members `n` times (or until it ends) gives:
/// the items, the page requests made, whether the stream ended, and the
/// walk at the end.
pub struct WalkRun<E> {
    pub items: Seq<Result<Member, E>>,
    pub requests: Seq<Request>,
    pub ended: bool,
    pub state: MembersIterView,
}

/// Polls the stream of members from `v` at most `n` times, stopping when
/// it ends.
pub open spec fn spec_run<E>(
    v: MembersIterView,
    server: spec_fn(Request) -> Result<Seq<Member>, E>,
    n: nat,
) -> WalkRun<E>
    decreases n,
{
    if n == 0 {
        WalkRun { items: Seq::empty(), requests: Seq::empty(), ended: false, state: v }
    } else {
        let asked = if spec_needs_refresh(v) {
            seq![spec_page_request(v)]
        } else {
            Seq::<Request>::empty()
        };
        let (item, w) = spec_poll(v, server);
        match item {
            None => WalkRun { items: Seq::empty(), requests: asked, ended: true, state: w },
            Some(it) => {
                let rest = spec_run(w, server, (n - 1) as nat);
                WalkRun {
                    items: seq![it] + rest.items,
                    requests: asked + rest.requests,
                    ended: rest.ended,
                    state: rest.state,
                }
            },
        }
    }
}

/// The members as successful stream items.
pub open spec fn ok_items<E>(s: Seq<Member>) -> Seq<Result<Member, E>> {
    s.map_values(|m: Member| Ok::<Member, E>(m))
}

/// The pages one after the other.
pub open spec fn spec_flatten(pages: Seq<Seq<Member>>) -> Seq<Member>
    decreases pages.len(),
{
    if pages.len() == 0 {
        Seq::empty()
    } else {
        pages[0] + spec_flatten(pages.drop_first())
    }
}

/// The page request for the members of `guild_id` after `after`.
pub open spec fn spec_members_page_request(guild_id: GuildId, after: Option<UserId>) -> Request {
    spec_page_request(
        MembersIterView { guild_id, pending: Seq::empty(), after, tried_fetch: true },
    )
}

/// The requests that fetch `pages` one after the other, the first one
/// after `first`, each later one after the thousandth member of the page
/// before it.
pub open spec fn spec_walk_requests(
    guild_id: GuildId,
    first: Option<UserId>,
    pages: Seq<Seq<Member>>,
) -> Seq<Request>
    decreases pages.len(),
{
    if pages.len() == 0 {
        Seq::empty()
    } else {
        seq![spec_members_page_request(guild_id, first)] + spec_walk_requests(
            guild_id,
            Some(pages[0][MEMBER_PAGE_SIZE - 1].user.id),
            pages.drop_first(),
        )
    }
}

/// Whether `pages` is how a member list comes in pages: every page but the
/// last one full, the last one short (possibly empty).
pub open spec fn spec_paged(pages: Seq<Seq<Member>>) -> bool {
    &&& pages.len() > 0
    &&& forall|j: int| 0 <= j < pages.len() - 1 ==> #[trigger] pages[j].len() == MEMBER_PAGE_SIZE
    &&& pages.last().len() < MEMBER_PAGE_SIZE
}

/// Whether `server` answers the requests that fetch `pages` with those
/// pages.
pub open spec fn spec_serves<E>(
    server: spec_fn(Request) -> Result<Seq<Member>, E>,
    guild_id: GuildId,
    first: Option<UserId>,
    pages: Seq<Seq<Member>>,
) -> bool {
    forall|j: int|
        0 <= j < pages.len() ==> server(#[trigger] spec_walk_requests(guild_id, first, pages)[j])
            == Ok::<Seq<Member>, E>(pages[j])
}

proof fn lemma_walk_requests_len(guild_id: GuildId, first: Option<UserId>, pages: Seq<Seq<Member>>)
    ensures
        spec_walk_requests(guild_id, first, pages).len() == pages.len(),
    decreases pages.len(),
{
    if pages.len() > 0 {
        lemma_walk_requests_len(
            guild_id,
            Some(pages[0][MEMBER_PAGE_SIZE - 1].user.id),
            pages.drop_first(),
        );
    }
}

/// Handing out the members held: `s.len()` polls give them in order and
/// make no request.
proof fn lemma_drain<E>(
    v: MembersIterView,
    server: spec_fn(Request) -> Result<Seq<Member>, E>,
    m: nat,
)
    requires
        v.tried_fetch,
    ensures
        ({
            let r = spec_run(v, server, v.pending.len() + m);
            let rest = spec_run(MembersIterView { pending: Seq::empty(), ..v }, server, m);
            &&& r.items == ok_items::<E>(v.pending) + rest.items
            &&& r.requests == rest.requests
            &&& r.ended == rest.ended
        }),
    decreases v.pending.len(),
{
    if v.pending.len() == 0 {
        assert(v.pending =~= Seq::<Member>::empty());
        assert(v == (MembersIterView { pending: Seq::empty(), ..v }));
        assert(ok_items::<E>(v.pending) =~= Seq::<Result<Member, E>>::empty());
    } else {
        let w = spec_after_pop(v);
        lemma_drain(w, server, m);
        assert(v.pending.len() + m - 1 == w.pending.len() + m);
        assert(MembersIterView { pending: Seq::empty(), ..w } == MembersIterView {
            pending: Seq::empty(),
            ..v
        });
        assert(ok_items::<E>(v.pending) =~= seq![Ok::<Member, E>(v.pending[0])] + ok_items::<E>(
            w.pending,
        ));
        let r = spec_run(v, server, v.pending.len() + m);
        let rw = spec_run(w, server, w.pending.len() + m);
        assert(r.items == seq![Ok::<Member, E>(v.pending[0])] + rw.items);
        assert(r.requests =~= rw.requests);
    }
}

/// Once a walk is due to fetch from `first` on, and the server answers
/// with `pages`, the stream gives every member of every page, in order,
/// then ends, making exactly the page requests for `pages`, in order.
pub proof fn law_walk_over_pages<E>(
    v: MembersIterView,
    server: spec_fn(Request) -> Result<Seq<Member>, E>,
    pages: Seq<Seq<Member>>,
)
    requires
        v.pending.len() == 0,
        spec_needs_refresh(v),
        spec_paged(pages),
        spec_serves(server, v.guild_id, v.after, pages),
    ensures
        ({
            let r = spec_run(v, server, spec_flatten(pages).len() + 1);
            &&& r.items == ok_items::<E>(spec_flatten(pages))
            &&& r.requests == spec_walk_requests(v.guild_id, v.after, pages)
            &&& r.ended
        }),
    decreases pages.len(),
{
    let p = pages[0];
    let rest = pages.drop_first();
    let reqs = spec_walk_requests(v.guild_id, v.after, pages);
    assert(reqs[0] == spec_members_page_request(v.guild_id, v.after));
    assert(spec_page_request(v) == reqs[0]);
    assert(server(reqs[0]) == Ok::<Seq<Member>, E>(p));
    assert(spec_flatten(pages) == p + spec_flatten(rest));
    let n = spec_flatten(pages).len() + 1;
    let r = spec_run(v, server, n);
    if p.len() == 0 {
        assert(pages.len() == 1) by {
            if pages.len() > 1 {
                assert(pages[0].len() == MEMBER_PAGE_SIZE);
            }
        }
        assert(rest.len() == 0);
        assert(spec_flatten(rest) =~= Seq::<Member>::empty());
        assert(spec_flatten(pages) =~= Seq::<Member>::empty());
        assert(ok_items::<E>(spec_flatten(pages)) =~= Seq::<Result<Member, E>>::empty());
        assert(spec_walk_requests(v.guild_id, Some(p[MEMBER_PAGE_SIZE - 1].user.id), rest)
            =~= Seq::<Request>::empty());
        assert(reqs =~= seq![spec_page_request(v)]);
    } else {
        let w = spec_after_pop(spec_after_refresh(v, p));
        assert(spec_poll(v, server) == (Some(Ok::<Member, E>(p[0])), w));
        let m = spec_flatten(rest).len() + 1;
        assert(n - 1 == w.pending.len() + m);
        lemma_drain(w, server, m);
        let u = MembersIterView { pending: Seq::empty(), ..w };
        let ru = spec_run(u, server, m);
        assert(ok_items::<E>(p) =~= seq![Ok::<Member, E>(p[0])] + ok_items::<E>(w.pending));
        if pages.len() == 1 {
            assert(p.len() < MEMBER_PAGE_SIZE);
            assert(u.after is None);
            assert(!spec_needs_refresh(u));
            assert(rest.len() == 0);
            assert(spec_flatten(rest) =~= Seq::<Member>::empty());
            assert(ru.items =~= Seq::<Result<Member, E>>::empty());
            assert(ru.requests =~= Seq::<Request>::empty());
            assert(spec_flatten(pages) =~= p);
            assert(spec_walk_requests(v.guild_id, Some(p[MEMBER_PAGE_SIZE - 1].user.id), rest)
                =~= Seq::<Request>::empty());
            assert(reqs =~= seq![spec_page_request(v)]);
            assert(r.items =~= ok_items::<E>(spec_flatten(pages)));
            assert(r.requests =~= reqs);
        } else {
            assert(p.len() == MEMBER_PAGE_SIZE);
            assert(u.after == Some(p[MEMBER_PAGE_SIZE - 1].user.id));
            assert(spec_paged(rest)) by {
                assert forall|j: int| 0 <= j < rest.len() - 1 implies #[trigger] rest[j].len()
                    == MEMBER_PAGE_SIZE by {
                    assert(rest[j] == pages[j + 1]);
                }
            }
            let rreqs = spec_walk_requests(v.guild_id, u.after, rest);
            let first = spec_members_page_request(v.guild_id, v.after);
            assert(reqs == seq![first] + rreqs);
            lemma_walk_requests_len(v.guild_id, u.after, rest);
            assert(spec_serves(server, u.guild_id, u.after, rest)) by {
                assert forall|j: int| 0 <= j < rest.len() implies server(
                    #[trigger] spec_walk_requests(u.guild_id, u.after, rest)[j],
                ) == Ok::<Seq<Member>, E>(rest[j]) by {
                    assert((seq![first] + rreqs)[j + 1] == rreqs[j]);
                    assert(server(reqs[j + 1]) == Ok::<Seq<Member>, E>(pages[j + 1]));
                    assert(rest[j] == pages[j + 1]);
                }
            }
            law_walk_over_pages(u, server, rest);
            assert(ok_items::<E>(spec_flatten(pages)) =~= ok_items::<E>(p) + ok_items::<E>(
                spec_flatten(rest),
            ));
            assert(r.items =~= ok_items::<E>(spec_flatten(pages)));
            assert(r.requests =~= reqs);
        }
    }
}

/// The walk that a stream of the members of `guild_id` starts from.
pub open spec fn spec_walk_start(guild_id: GuildId) -> MembersIterView {
    MembersIterView { guild_id, pending: Seq::empty(), after: None, tried_fetch: false }
}

/// The stream of the members of a guild gives every member of every page
/// that the server answers with, in order, each once, then ends; it makes
/// exactly the page requests for those pages, in order: the first from the
/// beginning of the member list, each later one after the thousandth
/// member of the page before it.
pub proof fn law_stream_over_all_pages<E>(
    guild_id: GuildId,
    server: spec_fn(Request) -> Result<Seq<Member>, E>,
    pages: Seq<Seq<Member>>,
)
    requires
        spec_paged(pages),
        spec_serves(server, guild_id, None, pages),
    ensures
        ({
            let r = spec_run(spec_walk_start(guild_id), server, spec_flatten(pages).len() + 1);
            &&& r.items == ok_items::<E>(spec_flatten(pages))
            &&& r.requests == spec_walk_requests(guild_id, None, pages)
            &&& r.ended
        }),
{
    law_walk_over_pages(spec_walk_start(guild_id), server, pages);
}

/// The member list `all` cut into pages of a thousand members, the last
/// page shorter (empty when the list length is a multiple of a thousand).
pub open spec fn spec_chunks(all: Seq<Member>) -> Seq<Seq<Member>>
    decreases all.len(),
{
    if all.len() < MEMBER_PAGE_SIZE {
        seq![all]
    } else {
        seq![all.take(MEMBER_PAGE_SIZE as int)] + spec_chunks(all.skip(MEMBER_PAGE_SIZE as int))
    }
}

proof fn lemma_chunks(all: Seq<Member>)
    ensures
        spec_paged(spec_chunks(all)),
        spec_flatten(spec_chunks(all)) == all,
        spec_chunks(all).len() == all.len() / (MEMBER_PAGE_SIZE as nat) + 1,
    decreases all.len(),
{
    let c = spec_chunks(all);
    if all.len() < MEMBER_PAGE_SIZE {
        assert(c.drop_first() =~= Seq::<Seq<Member>>::empty());
        assert(c[0] == all);
        assert(spec_flatten(c.drop_first()) == Seq::<Member>::empty());
        assert(spec_flatten(c) =~= all);
    } else {
        let rest = all.skip(MEMBER_PAGE_SIZE as int);
        lemma_chunks(rest);
        let rc = spec_chunks(rest);
        assert(c.drop_first() =~= rc);
        assert(all =~= all.take(MEMBER_PAGE_SIZE as int) + rest);
        assert forall|j: int| 0 <= j < c.len() - 1 implies #[trigger] c[j].len()
            == MEMBER_PAGE_SIZE by {
            if j > 0 {
                assert(c[j] == rc[j - 1]);
            }
        }
        assert(c.last() == rc.last());
    }
}

/// For a guild whose members, in the order the server lists them, are
/// `all`, a stream that gets every page it asks for gives exactly `all`,
/// in order, then ends, after `all.len() / 1000 + 1` page requests.
pub proof fn law_stream_counts<E>(
    guild_id: GuildId,
    server: spec_fn(Request) -> Result<Seq<Member>, E>,
    all: Seq<Member>,
)
    requires
        spec_serves(server, guild_id, None, spec_chunks(all)),
    ensures
        ({
            let r = spec_run(spec_walk_start(guild_id), server, all.len() + 1);
            &&& r.items == ok_items::<E>(all)
            &&& r.requests.len() == all.len() / (MEMBER_PAGE_SIZE as nat) + 1
            &&& r.ended
        }),
{
    lemma_chunks(all);
    law_stream_over_all_pages(guild_id, server, spec_chunks(all));
    lemma_walk_requests_len(guild_id, None, spec_chunks(all));
}

/// A page request that fails makes the stream give its error and keep the
/// walk as it was, so every later poll asks for the same page again: a
/// page that can never be fetched makes the stream endless, an error per
/// poll.
pub proof fn law_failed_fetch_repeats<E>(
    v: MembersIterView,
    server: spec_fn(Request) -> Result<Seq<Member>, E>,
    e: E,
    n: nat,
)
    requires
        spec_needs_refresh(v),
        server(spec_page_request(v)) == Err::<Seq<Member>, E>(e),
    ensures
        spec_poll(v, server) == (Some(Err::<Member, E>(e)), v),
        spec_run(v, server, n) == (WalkRun {
            items: Seq::new(n, |i: int| Err::<Member, E>(e)),
            requests: Seq::new(n, |i: int| spec_page_request(v)),
            ended: false,
            state: v,
        }),
    decreases n,
{
    if n > 0 {
        law_failed_fetch_repeats(v, server, e, (n - 1) as nat);
        let r = spec_run(v, server, n);
        let rest = spec_run(v, server, (n - 1) as nat);
        assert(r.items =~= Seq::new(n, |i: int| Err::<Member, E>(e)));
        assert(r.requests =~= Seq::new(n, |i: int| spec_page_request(v)));
    } else {
        assert(spec_run(v, server, 0).items =~= Seq::new(0, |i: int| Err::<Member, E>(e)));
        assert(spec_run(v, server, 0).requests =~= Seq::new(0, |i: int| spec_page_request(v)));
    }
}

} // verus!
