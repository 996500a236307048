//! What holds of a descriptor across several operations.
//!
//! The subsystem decides which status it reports; these statements say what
//! follows for the descriptor once the status is known.

use crate::group::{ControllerView, GroupView};
use crate::name::valid_group_name;
use crate::status::{outcome, SubsystemError};
use vstd::prelude::*;

verus! {

/// Initialization may be repeated: as long as the subsystem keeps reporting
/// the same status, every call has the outcome of the first.
pub proof fn lemma_init_repeatable(statuses: Seq<i32>)
    requires
        statuses.len() >= 1,
        forall|i: int| 0 <= i < statuses.len() ==> #[trigger] statuses[i] == statuses[0],
    ensures
        forall|i: int|
            0 <= i < statuses.len() ==> outcome(#[trigger] statuses[i]) == outcome(statuses[0]),
{
}

/// A status is a success exactly when it is zero, and a failure carries the
/// status unchanged.
pub proof fn lemma_outcome_classifies(status: i32)
    ensures
        outcome(status) is Ok <==> status == 0,
        outcome(status) is Err ==> outcome(status) == Err::<(), SubsystemError>(
            SubsystemError(status),
        ),
{
}

/// A new descriptor whose commit succeeds is committed under its name, and a
/// descriptor then fetched under that name carries the name too.
pub proof fn lemma_create_then_get(name: Seq<char>, created: usize, fetched: usize)
    requires
        valid_group_name(name),
    ensures
        outcome(0) is Ok,
        GroupView::fresh(name, created).commit(0).committed,
        GroupView::fresh(name, created).commit(0).name == name,
        GroupView::fetched(name, fetched).committed,
        GroupView::fetched(name, fetched).name == name,
{
}

/// A controller attached before the commit is part of what is committed:
/// the commit keeps every attached controller, in order, whatever else was
/// attached before or after it.
pub proof fn lemma_attached_controller_is_committed(
    group: GroupView,
    controller: ControllerView,
    later: Seq<ControllerView>,
    status: i32,
)
    ensures
        attach_all(group.attach(controller), later).commit(status).controllers
            == group.controllers.push(controller) + later,
        attach_all(group.attach(controller), later).commit(status).has_controller(
            controller.name,
        ),
        status == 0 ==> attach_all(group.attach(controller), later).commit(status).committed,
{
    lemma_attach_all(group.attach(controller), later);
    let committed = attach_all(group.attach(controller), later).commit(status);
    let at = group.controllers.len() as int;
    assert(committed.controllers[at].name == controller.name);
}

/// The descriptor after attaching each of `controllers` in turn.
pub open spec fn attach_all(group: GroupView, controllers: Seq<ControllerView>) -> GroupView
    decreases controllers.len(),
{
    if controllers.len() == 0 {
        group
    } else {
        attach_all(group, controllers.drop_last()).attach(controllers.last())
    }
}

/// Attaching touches the list of controllers only, and appends to it.
pub proof fn lemma_attach_all(group: GroupView, controllers: Seq<ControllerView>)
    ensures
        attach_all(group, controllers) == (GroupView {
            controllers: group.controllers + controllers,
            ..group
        }),
    decreases controllers.len(),
{
    if controllers.len() == 0 {
        assert(group.controllers + controllers =~= group.controllers);
    } else {
        lemma_attach_all(group, controllers.drop_last());
        assert((group.controllers + controllers.drop_last()).push(controllers.last())
            =~= group.controllers + controllers);
    }
}

/// Attaching the same controller twice leaves two entries.
pub proof fn lemma_attach_keeps_duplicates(group: GroupView, controller: ControllerView)
    ensures
        group.attach(controller).attach(controller).controllers.len() == group.controllers.len()
            + 2,
        group.attach(controller).attach(controller).controllers == group.controllers.push(
            controller,
        ).push(controller),
{
}

/// A commit that fails leaves the descriptor as it was. So a second commit
/// that the subsystem refuses, after a first that it accepted, reports the
/// refusal and leaves the descriptor committed.
pub proof fn lemma_refused_commit_changes_nothing(group: GroupView, status: i32)
    requires
        status != 0,
    ensures
        outcome(status) == Err::<(), SubsystemError>(SubsystemError(status)),
        group.commit(status) == group,
        group.commit(0).commit(status) == group.commit(0),
        group.commit(0).commit(status).committed,
{
}

/// A commit changes nothing but whether the descriptor is committed.
pub proof fn lemma_commit_keeps_description(group: GroupView, status: i32)
    ensures
        group.commit(status).name == group.name,
        group.commit(status).handle == group.handle,
        group.commit(status).controllers == group.controllers,
        group.commit(status).committed == (group.committed || status == 0),
{
}

} // verus!
