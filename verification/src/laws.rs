//! What holds of every run of the start-up machine, whatever it is fed.

use crate::error::InitErrorView;
use crate::startup::{
    first_action, migrations_directory, next, ActionView, Database, EventView, Initializer,
    MAX_CONNECTIONS,
};
use vstd::prelude::*;

verus! {

/// A whole run: the state reached from the first stage after `events`, and
/// every action asked for on the way, the first one included.
pub open spec fn run<P>(events: Seq<EventView<P>>) -> (Initializer<P>, Seq<ActionView<P>>)
    decreases events.len(),
{
    if events.len() == 0 {
        (Initializer::AwaitingSetting, seq![first_action::<P>()])
    } else {
        let before = run(events.drop_last());
        let moved = next(before.0, events.last());
        match moved.1 {
            Some(action) => (moved.0, before.1.push(action)),
            None => (moved.0, before.1),
        }
    }
}

/// The run is over: the database was handed out, or start-up was abandoned.
pub open spec fn finished<P>(state: Initializer<P>) -> bool {
    state is Ready || state is Failed
}

/// A request to open a pool with the fixed ceiling on its connections.
pub open spec fn capped_connect<P>(action: ActionView<P>) -> bool {
    action matches ActionView::Connect { settings, .. } && settings.max_connections
        == MAX_CONNECTIONS
}

/// The request to apply the migrations.
pub open spec fn migrate<P>() -> ActionView<P> {
    ActionView::Migrate { directory: migrations_directory() }
}

/// `asked` is a prefix of "read, connect, migrate, done" in that order, cut
/// short by a failure of the step just tried, and `state` is the stage that
/// this prefix leads to.
pub open spec fn in_order<P>(state: Initializer<P>, asked: Seq<ActionView<P>>) -> bool {
    &&& 1 <= asked.len() <= 4
    &&& asked[0] == first_action::<P>()
    &&& match state {
        Initializer::AwaitingSetting => asked.len() == 1,
        Initializer::Connecting => asked.len() == 2 && capped_connect(asked[1]),
        Initializer::Migrating(_) => {
            &&& asked.len() == 3
            &&& capped_connect(asked[1])
            &&& asked[2] == migrate::<P>()
        },
        Initializer::Ready => {
            &&& asked.len() == 4
            &&& capped_connect(asked[1])
            &&& asked[2] == migrate::<P>()
            &&& asked[3] is Done
        },
        Initializer::Failed => {
            ||| asked.len() == 2 && asked[1] == ActionView::<P>::Fail(InitErrorView::Configuration)
            ||| {
                &&& asked.len() == 3
                &&& capped_connect(asked[1])
                &&& asked[2] matches ActionView::Fail(InitErrorView::Connection(_))
            }
            ||| {
                &&& asked.len() == 4
                &&& capped_connect(asked[1])
                &&& asked[2] == migrate::<P>()
                &&& asked[3] matches ActionView::Fail(InitErrorView::Migration(_))
            }
        },
    }
}

/// Every run keeps the steps in order: the setting is read once, then at
/// most one pool is opened, then migrations are run at most once, and the
/// run ends with the pool handed out or with the error of the step that
/// failed. Nothing is tried a second time.
pub proof fn law_steps_in_order<P>(events: Seq<EventView<P>>)
    ensures
        in_order(run(events).0, run(events).1),
    decreases events.len(),
{
    if events.len() > 0 {
        law_steps_in_order(events.drop_last());
    }
}

/// A finished run stays as it is: later events change neither the state nor
/// what was asked for.
pub proof fn law_finished_stays_finished<P>(events: Seq<EventView<P>>, later: Seq<EventView<P>>)
    requires
        finished(run(events).0),
    ensures
        run(events + later) == run(events),
    decreases later.len(),
{
    if later.len() == 0 {
        assert(events + later =~= events);
    } else {
        law_finished_stays_finished(events, later.drop_last());
        assert((events + later).drop_last() =~= events + later.drop_last());
        assert((events + later).last() == later.last());
    }
}

/// Whenever a pool is asked for, it is the second action of the run and
/// carries the fixed ceiling: no run opens a second pool or a wider one.
pub proof fn law_pool_is_capped<P>(events: Seq<EventView<P>>, i: int)
    requires
        0 <= i < run(events).1.len(),
        run(events).1[i] is Connect,
    ensures
        i == 1,
        run(events).1[i]->settings.max_connections == MAX_CONNECTIONS,
{
    law_steps_in_order(events);
}

/// The pool is handed out only as the last action of a run whose migrations
/// were asked for just before, and the machine keeps no pool afterwards.
pub proof fn law_pool_only_after_migrations<P>(events: Seq<EventView<P>>, i: int)
    requires
        0 <= i < run(events).1.len(),
        run(events).1[i] is Done,
    ensures
        i == 3,
        run(events).1.len() == 4,
        run(events).1[2] == migrate::<P>(),
        run(events).0 is Ready,
{
    law_steps_in_order(events);
}

/// With the connection URL absent the run fails at once for want of
/// configuration, whatever is reported afterwards: no pool is ever asked for.
pub proof fn law_missing_setting_fails<P>(events: Seq<EventView<P>>)
    requires
        events.len() > 0,
        events[0] == EventView::<P>::Setting(None),
    ensures
        run(events).0 is Failed,
        run(events).1 == seq![
            first_action::<P>(),
            ActionView::<P>::Fail(InitErrorView::Configuration),
        ],
{
    let head = seq![events[0]];
    assert(head.drop_last() =~= Seq::<EventView<P>>::empty());
    assert(run(head.drop_last()).0 is AwaitingSetting);
    assert(run(head).1 =~= seq![
        first_action::<P>(),
        ActionView::<P>::Fail(InitErrorView::Configuration),
    ]);
    law_finished_stays_finished(head, events.skip(1));
    assert(head + events.skip(1) =~= events);
}

/// When the pool cannot be opened the run fails with that cause, and no
/// migration is asked for, then or later.
pub proof fn law_failed_connection_fails<P>(
    events: Seq<EventView<P>>,
    cause: Seq<char>,
    later: Seq<EventView<P>>,
)
    requires
        run(events).0 is Connecting,
    ensures
        ({
            let failed = run(events.push(EventView::Connected(Err(cause))) + later);
            &&& failed.0 is Failed
            &&& failed.1 == run(events).1.push(
                ActionView::Fail(InitErrorView::Connection(cause)),
            )
            &&& forall|i: int| 0 <= i < failed.1.len() ==> !(failed.1[i] is Migrate)
        }),
{
    let tried = events.push(EventView::Connected(Err(cause)));
    assert(tried.drop_last() =~= events);
    law_steps_in_order(events);
    law_finished_stays_finished(tried, later);
}

/// When a migration fails the run fails with that cause, the pool is let go
/// and never handed out, and nothing more is asked for, whatever follows.
pub proof fn law_failed_migration_fails<P>(
    events: Seq<EventView<P>>,
    cause: Seq<char>,
    later: Seq<EventView<P>>,
)
    requires
        run(events).0 is Migrating,
    ensures
        ({
            let failed = run(events.push(EventView::Migrated(Err(cause))) + later);
            &&& failed.0 is Failed
            &&& failed.1 == run(events).1.push(ActionView::Fail(InitErrorView::Migration(cause)))
            &&& forall|i: int| 0 <= i < failed.1.len() ==> !(failed.1[i] is Done)
        }),
{
    let tried = events.push(EventView::Migrated(Err(cause)));
    assert(tried.drop_last() =~= events);
    law_steps_in_order(events);
    law_finished_stays_finished(tried, later);
}

/// When every step succeeds the run hands out the very pool that was opened,
/// after asking for each step once, in order, against the URL that was read.
pub proof fn law_success_hands_out_the_pool<P>(url: Seq<char>, pool: P)
    ensures
        ({
            let done = run(
                seq![
                    EventView::Setting(Some(url)),
                    EventView::Connected(Ok(pool)),
                    EventView::Migrated(Ok(())),
                ],
            );
            &&& done.0 is Ready
            &&& done.1.len() == 4
            &&& done.1[1] matches ActionView::Connect { url: target, settings }
                && target == url && settings.max_connections == MAX_CONNECTIONS
            &&& done.1[2] == migrate::<P>()
            &&& done.1[3] == ActionView::Done(Database { pool })
        }),
{
    let all = seq![
        EventView::Setting(Some(url)),
        EventView::Connected(Ok(pool)),
        EventView::Migrated(Ok(())),
    ];
    let two = all.drop_last();
    let one = two.drop_last();
    assert(one.drop_last() =~= Seq::<EventView<P>>::empty());
    assert(run(one.drop_last()).0 is AwaitingSetting);
    assert(run(one).0 is Connecting);
    assert(run(two).0 == Initializer::Migrating(pool));
}

} // verus!
