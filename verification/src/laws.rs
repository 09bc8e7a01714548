//! What every run of the operation does to the world.
//!
//! A run is the provisioner working against a world that follows
//! [`crate::world::serves`]: each request is carried out, the reply goes
//! back, until the provisioner finishes. The laws below hold for every such
//! run, whatever fails on the way.

use vstd::prelude::*;

use crate::config::ConfigView;
use crate::error::ProvisionErrorView;
use crate::naming::{
    is_absolute, is_component, law_absolute_of_is_absolute, law_target_ends_in_suffix,
    law_target_is_named_child, lemma_parent_is_nearest, lies_below, lies_within, parent_of,
    separator,
};
use crate::provisioner::{
    entering, first_step, request_in, step_after, Phase, ProvisionerView, StepView,
};
use crate::request::{add_origin_command_of, init_bare_command_of, ReplyView, RequestView};
use crate::world::{
    is_coherent, is_dir, is_present, leads_to, same_at, serves, with_dirs, without_tree, Disk,
    Entry, World,
};

verus! {

/// One exchange of a run: the reply to the request that was out, and the
/// world that carrying out the request has left.
pub struct Event {
    pub reply: ReplyView,
    pub after: World,
}

/// How a run ended: its result and the world that it has left.
pub struct Ending {
    pub result: Result<(), ProvisionErrorView>,
    pub world: World,
}

/// The ending of the run that begins with `step` in `world` and goes through
/// `events`, or `None` where `events` is no complete run from there: an
/// exchange that the world does not allow, events after the end, or too few.
pub open spec fn outcome(step: StepView, world: World, events: Seq<Event>) -> Option<Ending>
    decreases events.len(),
{
    match step {
        StepView::Finished { result } => if events.len() == 0 {
            Some(Ending { result, world })
        } else {
            None
        },
        StepView::Perform { request, then } => if events.len() > 0 && serves(
            world,
            request,
            events[0].reply,
            events[0].after,
        ) {
            outcome(step_after(then, events[0].reply), events[0].after, events.drop_first())
        } else {
            None
        },
    }
}

/// The ending of the whole operation with the settings `config`, begun in
/// the world `start` and going through `events`.
pub open spec fn run(config: ConfigView, start: World, events: Seq<Event>) -> Option<Ending> {
    outcome(first_step(config), start, events)
}

/// Whether the run with the settings `config`, begun in `start` and going
/// through `events`, is complete and ends as `ending`.
pub open spec fn ends_as(
    config: ConfigView,
    start: World,
    events: Seq<Event>,
    ending: Ending,
) -> bool {
    run(config, start, events) == Some(ending)
}

/// Whether the two disks hold the same wherever a path does not lie below
/// `root`.
pub open spec fn differ_only_below(before: Disk, after: Disk, root: Seq<char>) -> bool {
    forall|path: Seq<char>| !(#[trigger] lies_below(path, root)) ==> same_at(before, after, path)
}

/// Without a base directory the operation fails with `InvalidBasePath`
/// after its first question, and the world is as it was.
pub proof fn law_missing_base_changes_nothing(
    config: ConfigView,
    start: World,
    events: Seq<Event>,
    ending: Ending,
)
    requires
        ends_as(config, start, events, ending),
        !is_dir(start.disk, config.base_path),
    ensures
        ending.result == Err::<(), ProvisionErrorView>(
            ProvisionErrorView::InvalidBasePath { path: config.base_path },
        ),
        ending.world == start,
        events.len() == 1,
{
    reveal_with_fuel(outcome, 2);
}

/// The disk that a run leaves when it succeeds: what was in the way is
/// gone with all that was in it, and the directory is there, with the
/// directories that it lies below.
pub open spec fn provisioned(disk: Disk, target: Seq<char>) -> Disk {
    if is_present(disk, target) {
        with_dirs(without_tree(disk, target), target)
    } else {
        with_dirs(disk, target)
    }
}

/// A run that succeeds has found the base directory, has found the
/// repository's directory absent or was allowed to overwrite it, and leaves
/// the disk [`provisioned`].
pub proof fn law_success_provisions(
    config: ConfigView,
    start: World,
    events: Seq<Event>,
    ending: Ending,
)
    requires
        ends_as(config, start, events, ending),
        ending.result is Ok,
    ensures
        is_dir(start.disk, config.base_path),
        is_present(start.disk, config.target()) ==> config.force,
        ending.world.disk == provisioned(start.disk, config.target()),
        is_dir(ending.world.disk, config.target()),
{
    reveal_with_fuel(outcome, 7);
}

/// On a coherent disk that holds the parent of `path` as a directory,
/// creating `path` adds that one directory.
proof fn lemma_created_alone(disk: Disk, path: Seq<char>)
    requires
        is_coherent(disk),
        is_dir(disk, parent_of(path)),
        lies_below(path, parent_of(path)),
        leads_to(disk, path),
    ensures
        with_dirs(disk, path) == disk.insert(path, Entry::Dir),
{
    assert forall|other: Seq<char>| lies_below(path, other) implies is_dir(disk, other) by {
        lemma_parent_is_nearest(path, other);
    }
}

/// Where the repository's directory is not there yet, nothing is deleted,
/// and a run that succeeds has created exactly that directory.
///
/// This needs the directory's parent to be there. For a name of a single
/// component the parent is the base directory; a name that holds a
/// separator asks for directories in between, and where they are missing
/// they are created as well.
pub proof fn law_fresh_target_is_created(
    config: ConfigView,
    start: World,
    events: Seq<Event>,
    ending: Ending,
)
    requires
        ends_as(config, start, events, ending),
        is_coherent(start.disk),
        is_dir(start.disk, config.base_path),
        !is_present(start.disk, config.target()),
        is_component(config.name) || is_dir(start.disk, parent_of(config.target())),
    ensures
        forall|path: Seq<char>| #[trigger]
            start.disk.contains_key(path) ==> ending.world.disk.contains_key(path)
                && ending.world.disk[path] == start.disk[path],
        ending.result is Ok ==> ending.world.disk == start.disk.insert(
            config.target(),
            Entry::Dir,
        ),
        ending.result is Err ==> ending.result->Err_0 is CreationFailed
            || ending.result->Err_0 is ExternalToolLaunchFailed,
        ending.result is Err && ending.result->Err_0 is ExternalToolLaunchFailed
            ==> ending.world.disk == start.disk.insert(config.target(), Entry::Dir),
{
    let target = config.target();
    if is_component(config.name) {
        law_target_is_named_child(config.base_path, config.name);
    }
    law_target_ends_in_suffix(config.base_path, config.name);
    lemma_parent_is_nearest(target, config.base_path);
    reveal_with_fuel(outcome, 6);
    if ending.result is Ok || ending.result->Err_0 is ExternalToolLaunchFailed {
        lemma_created_alone(start.disk, target);
    }
}

/// Where the repository's directory exists and overwriting was not asked
/// for, the operation fails with `TargetAlreadyExists` after its second
/// question, and the world is as it was.
pub proof fn law_existing_target_is_kept(
    config: ConfigView,
    start: World,
    events: Seq<Event>,
    ending: Ending,
)
    requires
        ends_as(config, start, events, ending),
        is_coherent(start.disk),
        is_present(start.disk, config.target()),
        !config.force,
    ensures
        ending.result == Err::<(), ProvisionErrorView>(
            ProvisionErrorView::TargetAlreadyExists { path: config.target() },
        ),
        ending.world == start,
        events.len() == 2,
{
    law_target_ends_in_suffix(config.base_path, config.name);
    assert(lies_below(config.target(), config.base_path));
    reveal_with_fuel(outcome, 3);
}

/// Where the repository's directory exists and overwriting was asked for,
/// a run that succeeds has deleted the directory with all that was in it
/// and created it anew: nothing lies below it, and the rest of the disk is
/// as it was.
pub proof fn law_existing_target_is_replaced(
    config: ConfigView,
    start: World,
    events: Seq<Event>,
    ending: Ending,
)
    requires
        ends_as(config, start, events, ending),
        is_coherent(start.disk),
        is_present(start.disk, config.target()),
        config.force,
    ensures
        ending.result is Ok ==> ending.world.disk == without_tree(
            start.disk,
            config.target(),
        ).insert(config.target(), Entry::Dir),
        ending.result is Ok ==> forall|path: Seq<char>| #[trigger]
            lies_below(path, config.target()) ==> !ending.world.disk.contains_key(path),
        ending.result is Err ==> ending.result->Err_0 is DeletionFailed
            || ending.result->Err_0 is CreationFailed
            || ending.result->Err_0 is ExternalToolLaunchFailed,
        ending.result is Err && ending.result->Err_0 is ExternalToolLaunchFailed
            ==> ending.world.disk == without_tree(start.disk, config.target()).insert(
            config.target(),
            Entry::Dir,
        ),
{
    let target = config.target();
    law_target_ends_in_suffix(config.base_path, config.name);
    assert(lies_below(target, config.base_path));
    reveal_with_fuel(outcome, 7);
    if ending.result is Ok {
        law_success_provisions(config, start, events, ending);
    }
}

/// Idempotence under `force`. Run the operation to success; let anything
/// happen below the new directory, as the initialising tool will see to;
/// run it to success again with the same settings: the disk is then as the
/// first run left it, with the directory there and nothing in it.
pub proof fn law_forced_rerun_ends_alike(
    config: ConfigView,
    start: World,
    first_events: Seq<Event>,
    first: Ending,
    again: World,
    second_events: Seq<Event>,
    second: Ending,
)
    requires
        config.force,
        is_coherent(start.disk),
        ends_as(config, start, first_events, first),
        first.result is Ok,
        differ_only_below(first.world.disk, again.disk, config.target()),
        ends_as(config, again, second_events, second),
        second.result is Ok,
    ensures
        second.world.disk == first.world.disk,
        is_dir(first.world.disk, config.target()),
        forall|path: Seq<char>| #[trigger]
            lies_below(path, config.target()) ==> !first.world.disk.contains_key(path),
{
    let target = config.target();
    law_success_provisions(config, start, first_events, first);
    law_success_provisions(config, again, second_events, second);
    assert(!lies_below(target, target));
    assert forall|path: Seq<char>| #[trigger]
        lies_below(path, target) implies !first.world.disk.contains_key(path) by {
        if start.disk.contains_key(path) {
            assert(is_dir(start.disk, target));
        }
    }
    assert forall|path: Seq<char>| #[trigger]
        second.world.disk.contains_key(path) == first.world.disk.contains_key(path) by {
        if !lies_below(path, target) {
            assert(same_at(first.world.disk, again.disk, path));
        }
    }
    assert forall|path: Seq<char>| #[trigger]
        first.world.disk.contains_key(path) implies second.world.disk[path]
        == first.world.disk[path] by {
        if !lies_below(path, target) {
            assert(same_at(first.world.disk, again.disk, path));
        }
    }
}

/// The number of exchanges that a run in `phase` has before it at most.
spec fn exchanges_left(phase: Phase) -> nat {
    match phase {
        Phase::CheckingBase => 6,
        Phase::CheckingTarget => 5,
        Phase::Removing => 4,
        Phase::Creating => 3,
        Phase::Initializing => 2,
        Phase::Registering => 1,
        Phase::Announcing => 1,
    }
}

/// From any phase on, a run ends within the exchanges that the phase has
/// left, and keeps what exists outside the tree of the repository's path.
proof fn lemma_rest_of_disk_is_kept_from(
    config: ConfigView,
    phase: Phase,
    world: World,
    events: Seq<Event>,
    ending: Ending,
)
    requires
        outcome(entering(config, phase), world, events) == Some(ending),
    ensures
        1 <= events.len() <= exchanges_left(phase),
        forall|path: Seq<char>|
            !lies_within(path, config.target()) && #[trigger] world.disk.contains_key(path)
                ==> ending.world.disk.contains_key(path) && ending.world.disk[path]
                == world.disk[path],
    decreases events.len(),
{
    reveal_with_fuel(outcome, 2);
    let next = events[0].after;
    match step_after(ProvisionerView { config, phase }, events[0].reply) {
        StepView::Finished { .. } => {},
        StepView::Perform { then, .. } => {
            lemma_rest_of_disk_is_kept_from(config, then.phase, next, events.drop_first(), ending);
            assert forall|path: Seq<char>|
                !lies_within(path, config.target()) && #[trigger] world.disk.contains_key(
                    path,
                ) implies ending.world.disk.contains_key(path) && ending.world.disk[path]
                == world.disk[path] by {
                assert(next.disk.contains_key(path));
            }
        },
    }
}

/// Whatever happens, a run ends after six exchanges at most and touches the
/// disk through the repository's path alone: what exists outside the tree
/// of that path is kept as it is.
pub proof fn law_rest_of_disk_is_kept(
    config: ConfigView,
    start: World,
    events: Seq<Event>,
    ending: Ending,
)
    requires
        ends_as(config, start, events, ending),
    ensures
        1 <= events.len() <= 6,
        forall|path: Seq<char>|
            !lies_within(path, config.target()) && #[trigger] start.disk.contains_key(path)
                ==> ending.world.disk.contains_key(path) && ending.world.disk[path]
                == start.disk[path],
{
    lemma_rest_of_disk_is_kept_from(config, Phase::CheckingBase, start, events, ending);
}

/// A run that succeeds has started the initialising tool inside the new
/// directory, named by its absolute path. Then it has either printed that
/// absolute path and started nothing else, or printed nothing and tried to
/// start the tool that registers that absolute path as `origin`, in the
/// caller's own directory.
pub proof fn law_success_launches_and_prints(
    config: ConfigView,
    start: World,
    events: Seq<Event>,
    ending: Ending,
)
    requires
        ends_as(config, start, events, ending),
        ending.result is Ok,
    ensures
        config.skip_origin_add ==> ending.world.printed == start.printed.push(
            config.absolute_target(),
        ) && ending.world.launched == start.launched.push(
            init_bare_command_of(config.absolute_target()),
        ),
        !config.skip_origin_add ==> ending.world.printed == start.printed && (
        ending.world.launched == start.launched.push(
            init_bare_command_of(config.absolute_target()),
        ) || ending.world.launched == start.launched.push(
            init_bare_command_of(config.absolute_target()),
        ).push(add_origin_command_of(config.absolute_target()))),
{
    reveal_with_fuel(outcome, 7);
}

/// The path that is printed and that the tools are given is absolute
/// wherever the working directory or the base path is. Where the base path
/// is absolute, it is the path of the directory that was created; where it
/// is not, it is that path behind the working directory.
pub proof fn law_handed_out_path_is_absolute(config: ConfigView)
    requires
        is_absolute(config.working_dir) || is_absolute(config.base_path),
    ensures
        is_absolute(config.absolute_target()),
        is_absolute(config.base_path) ==> config.absolute_target() == config.target(),
        !is_absolute(config.base_path) && config.base_path.len() > 0 ==> config.absolute_target()
            == config.working_dir + seq![separator()] + config.target(),
        request_in(config, Phase::Initializing) == (RequestView::Launch {
            command: init_bare_command_of(config.absolute_target()),
        }),
        request_in(config, Phase::Registering) == (RequestView::Launch {
            command: add_origin_command_of(config.absolute_target()),
        }),
        request_in(config, Phase::Announcing) == (RequestView::Print {
            line: config.absolute_target(),
        }),
{
    law_target_ends_in_suffix(config.base_path, config.name);
    law_absolute_of_is_absolute(config.working_dir, config.target());
    if config.base_path.len() > 0 {
        assert(config.target()[0] == config.target().subrange(
            0,
            config.base_path.len() as int,
        )[0]);
    }
}

/// Every reply that the world gives answers the request that was made: a
/// question gets an answer, anything else an outcome.
pub proof fn law_world_answers_the_request(
    before: World,
    request: RequestView,
    reply: ReplyView,
    after: World,
)
    requires
        serves(before, request, reply, after),
    ensures
        reply.answers(request),
{
}

/// What decides the result of a run.
///
/// - It is `InvalidBasePath` exactly when the base directory is not there.
/// - It is `TargetAlreadyExists` exactly when the base directory is there,
///   the repository's directory exists and overwriting was not asked for.
/// - Any other failure hands on what the system said of the request that
///   failed.
/// - A request that fails is the last of the run.
/// - Success is owed where neither of the first two holds and no request
///   fails.
pub proof fn law_result_is_decided(
    config: ConfigView,
    start: World,
    events: Seq<Event>,
    ending: Ending,
)
    requires
        ends_as(config, start, events, ending),
    ensures
        ending.result == Err::<(), ProvisionErrorView>(
            ProvisionErrorView::InvalidBasePath { path: config.base_path },
        ) <==> !is_dir(start.disk, config.base_path),
        ending.result == Err::<(), ProvisionErrorView>(
            ProvisionErrorView::TargetAlreadyExists { path: config.target() },
        ) <==> is_dir(start.disk, config.base_path) && is_present(start.disk, config.target())
            && !config.force,
        forall|i: int| 0 <= i < events.len() - 1 ==> !(#[trigger] events[i].reply is Failed),
        ending.result is Err ==> match ending.result->Err_0 {
            ProvisionErrorView::InvalidBasePath { path } => path == config.base_path,
            ProvisionErrorView::TargetAlreadyExists { path } => path == config.target(),
            ProvisionErrorView::DeletionFailed { detail } => events.last().reply
                == ReplyView::Failed { detail },
            ProvisionErrorView::CreationFailed { detail } => events.last().reply
                == ReplyView::Failed { detail },
            ProvisionErrorView::ExternalToolLaunchFailed { detail } => events.last().reply
                == ReplyView::Failed { detail },
        },
        is_dir(start.disk, config.base_path) && (config.force || !is_present(
            start.disk,
            config.target(),
        )) && (forall|i: int| 0 <= i < events.len() ==> !(#[trigger] events[i].reply is Failed))
            ==> ending.result is Ok,
{
    reveal_with_fuel(outcome, 7);
}

/// A run goes on by one exchange that the world allows.
proof fn lemma_run_goes_on(step: StepView, world: World, event: Event, rest: Seq<Event>)
    requires
        step is Perform,
        serves(world, step->request, event.reply, event.after),
    ensures
        outcome(step, world, seq![event] + rest) == outcome(
            step_after(step->then, event.reply),
            event.after,
            rest,
        ),
{
    assert((seq![event] + rest).drop_first() =~= rest);
}

/// Success is possible: on a coherent disk that holds the base directory,
/// for a name of a single component, with nothing in the way or with leave
/// to overwrite it, there is a run in which no request fails, and it
/// succeeds. The run is handed out with its ending.
pub proof fn law_success_is_possible(config: ConfigView, start: World) -> (found: (
    Seq<Event>,
    Ending,
))
    requires
        is_coherent(start.disk),
        is_dir(start.disk, config.base_path),
        is_component(config.name),
        config.force || !is_present(start.disk, config.target()),
    ensures
        ends_as(config, start, found.0, found.1),
        found.1.result is Ok,
        forall|i: int| 0 <= i < found.0.len() ==> !(#[trigger] found.0[i].reply is Failed),
{
    let target = config.target();
    let in_the_way = is_present(start.disk, target);
    let cleared = if in_the_way {
        World { disk: without_tree(start.disk, target), ..start }
    } else {
        start
    };
    let created = World { disk: with_dirs(cleared.disk, target), ..cleared };
    let initialised = World {
        launched: created.launched.push(init_bare_command_of(config.absolute_target())),
        ..created
    };
    let last = if config.skip_origin_add {
        World { printed: initialised.printed.push(config.absolute_target()), ..initialised }
    } else {
        World {
            launched: initialised.launched.push(add_origin_command_of(config.absolute_target())),
            ..initialised
        }
    };
    let ending = Ending { result: Ok(()), world: last };
    let last_phase = if config.skip_origin_add {
        Phase::Announcing
    } else {
        Phase::Registering
    };

    let done = Seq::<Event>::empty();
    let finishing = seq![Event { reply: ReplyView::Done, after: last }] + done;
    lemma_run_goes_on(
        entering(config, last_phase),
        initialised,
        Event { reply: ReplyView::Done, after: last },
        done,
    );
    let initialising = seq![Event { reply: ReplyView::Done, after: initialised }] + finishing;
    lemma_run_goes_on(
        entering(config, Phase::Initializing),
        created,
        Event { reply: ReplyView::Done, after: initialised },
        finishing,
    );
    assert(leads_to(cleared.disk, target)) by {
        law_target_is_named_child(config.base_path, config.name);
        assert forall|other: Seq<char>|
            lies_within(target, other) && #[trigger] cleared.disk.contains_key(
                other,
            ) implies cleared.disk[other] is Dir by {
            if other != target {
                lemma_parent_is_nearest(target, other);
            }
        }
    }
    let creating = seq![Event { reply: ReplyView::Done, after: created }] + initialising;
    lemma_run_goes_on(
        entering(config, Phase::Creating),
        cleared,
        Event { reply: ReplyView::Done, after: created },
        initialising,
    );
    let clearing = if in_the_way {
        seq![Event { reply: ReplyView::Done, after: cleared }] + creating
    } else {
        creating
    };
    if in_the_way {
        lemma_run_goes_on(
            entering(config, Phase::Removing),
            start,
            Event { reply: ReplyView::Done, after: cleared },
            creating,
        );
    }
    let probing = seq![Event { reply: ReplyView::Found(in_the_way), after: start }] + clearing;
    lemma_run_goes_on(
        entering(config, Phase::CheckingTarget),
        start,
        Event { reply: ReplyView::Found(in_the_way), after: start },
        clearing,
    );
    let events = seq![Event { reply: ReplyView::Found(true), after: start }] + probing;
    lemma_run_goes_on(
        entering(config, Phase::CheckingBase),
        start,
        Event { reply: ReplyView::Found(true), after: start },
        probing,
    );
    (events, ending)
}

} // verus!
