//! Group descriptors and the controllers attached to them.

use crate::call::{HandleCall, StatusCall};
use crate::name::{valid_controller_name, valid_group_name};
use crate::status::{outcome, SubsystemError};
use vstd::prelude::*;

verus! {

/// What a controller handle stands for: the controller's name and the
/// reference that the subsystem gave for it.
pub struct ControllerView {
    pub name: Seq<char>,
    pub handle: usize,
}

/// What a group descriptor stands for.
pub struct GroupView {
    /// The group's name, fixed when the descriptor is built.
    pub name: Seq<char>,
    /// The reference that the subsystem allocated for the descriptor.
    pub handle: usize,
    /// The controllers attached through this descriptor, oldest first.
    pub controllers: Seq<ControllerView>,
    /// Whether the descriptor is known to the kernel.
    pub committed: bool,
}

impl GroupView {
    /// A descriptor that exists in memory only, with nothing attached.
    pub open spec fn fresh(name: Seq<char>, handle: usize) -> GroupView {
        GroupView { name, handle, controllers: Seq::empty(), committed: false }
    }

    /// A descriptor filled from a group that the kernel already holds.
    pub open spec fn fetched(name: Seq<char>, handle: usize) -> GroupView {
        GroupView { name, handle, controllers: Seq::empty(), committed: true }
    }

    /// The descriptor with one more controller attached. Nothing is merged:
    /// attaching a name twice leaves two entries.
    pub open spec fn attach(self, controller: ControllerView) -> GroupView {
        GroupView { controllers: self.controllers.push(controller), ..self }
    }

    /// The descriptor after a commit for which the subsystem reported
    /// `status`: committed on success, untouched on failure.
    pub open spec fn commit(self, status: i32) -> GroupView {
        if status == 0 {
            GroupView { committed: true, ..self }
        } else {
            self
        }
    }

    /// Whether a controller of that name was attached through the descriptor.
    pub open spec fn has_controller(self, name: Seq<char>) -> bool {
        exists|i: int| 0 <= i < self.controllers.len() && self.controllers[i].name == name
    }
}

/// A reference to a controller of a group. It is obtained from the group's
/// descriptor and means nothing once that descriptor is gone.
#[derive(Clone, Copy, Debug)]
pub struct Controller<'a> {
    name: &'a str,
    controller: usize,
}

impl<'a> View for Controller<'a> {
    type V = ControllerView;

    closed spec fn view(&self) -> ControllerView {
        ControllerView { name: self.name@, handle: self.controller }
    }
}

impl<'a> Controller<'a> {
    #[verifier::type_invariant]
    spec fn inv(self) -> bool {
        valid_controller_name(self.name@)
    }

    /// The controller's name, which is always free of NUL.
    pub fn name(&self) -> (name: &'a str)
        ensures
            name@ == self@.name,
            valid_controller_name(name@),
    {
        proof {
            use_type_invariant(self);
        }
        self.name
    }

    /// The reference that the subsystem gave for the controller.
    pub fn handle(&self) -> (handle: usize)
        ensures
            handle == self@.handle,
    {
        self.controller
    }

    /// Whether the subsystem gave a null reference, as it does for a
    /// controller that it could not attach or find.
    pub fn is_null(&self) -> (null: bool)
        ensures
            null == (self@.handle == 0),
    {
        self.controller == 0
    }
}

/// A named group: the name, the subsystem's handle for it, and the
/// controllers attached so far.
#[derive(Debug)]
pub struct Group<'a> {
    name: &'a str,
    cgroup: usize,
    controllers: Vec<Controller<'a>>,
    committed: bool,
}

impl<'a> View for Group<'a> {
    type V = GroupView;

    closed spec fn view(&self) -> GroupView {
        GroupView {
            name: self.name@,
            handle: self.cgroup,
            controllers: Seq::new(self.controllers@.len(), |i: int| self.controllers@[i]@),
            committed: self.committed,
        }
    }
}

impl<'a> Group<'a> {
    #[verifier::type_invariant]
    spec fn inv(self) -> bool {
        valid_group_name(self.name@)
    }

    /// The group's name, which is always non-empty and free of NUL.
    pub fn name(&self) -> (name: &'a str)
        ensures
            name@ == self@.name,
            valid_group_name(name@),
    {
        proof {
            use_type_invariant(self);
        }
        self.name
    }

    /// The handle that the subsystem allocated for the descriptor.
    pub fn handle(&self) -> (handle: usize)
        ensures
            handle == self@.handle,
    {
        self.cgroup
    }

    /// Whether the descriptor is known to the kernel: committed by `create`
    /// or filled by `get`.
    pub fn is_committed(&self) -> (committed: bool)
        ensures
            committed == self@.committed,
    {
        self.committed
    }

    /// How many controllers were attached through the descriptor.
    pub fn controller_count(&self) -> (count: usize)
        ensures
            count == self@.controllers.len(),
    {
        self.controllers.len()
    }

    /// The controller attached at position `index`, counting from the oldest.
    pub fn controller(&self, index: usize) -> (controller: Option<Controller<'a>>)
        ensures
            index < self@.controllers.len() ==> controller.is_some()
                && controller.unwrap()@ == self@.controllers[index as int],
            index >= self@.controllers.len() ==> controller.is_none(),
    {
        if index < self.controllers.len() {
            Some(self.controllers[index])
        } else {
            None
        }
    }

    /// The call that allocates a descriptor for the group `name`. Its answer
    /// is the handle that `new` and `get` take.
    pub fn allocation(name: &'a str) -> (call: HandleCall<'a>)
        requires
            valid_group_name(name@),
        ensures
            call == (HandleCall::Allocate { name }),
    {
        HandleCall::Allocate { name }
    }

    /// The call that attaches the controller `name`. Its answer is the
    /// handle that `add_controller` takes.
    pub fn attachment(&self, name: &'a str) -> (call: HandleCall<'a>)
        requires
            valid_controller_name(name@),
        ensures
            call == (HandleCall::Attach { group: self@.handle, controller: name }),
    {
        HandleCall::Attach { group: self.cgroup, controller: name }
    }

    /// The call that looks the controller `name` up. Its answer is the
    /// handle that `get_controller` takes.
    pub fn lookup(&self, name: &'a str) -> (call: HandleCall<'a>)
        requires
            valid_controller_name(name@),
        ensures
            call == (HandleCall::Lookup { group: self@.handle, controller: name }),
    {
        HandleCall::Lookup { group: self.cgroup, controller: name }
    }

    /// The call that commits the descriptor. It never asks the subsystem to
    /// override the ownership of the new group. Its answer is the status
    /// that `create` takes.
    pub fn commit(&self) -> (call: StatusCall)
        ensures
            call == (StatusCall::Commit { group: self@.handle, ignore_ownership: false }),
    {
        StatusCall::Commit { group: self.cgroup, ignore_ownership: false }
    }

    /// The call that fills the descriptor from the kernel. Its answer is the
    /// status that `get` takes.
    pub fn fetch(&self) -> (call: StatusCall)
        ensures
            call == (StatusCall::Fetch { group: self@.handle }),
    {
        StatusCall::Fetch { group: self.cgroup }
    }

    /// Builds the in-memory descriptor of the group `name` around the handle
    /// that the subsystem allocated for it. The kernel does not know the
    /// group yet.
    pub fn new(name: &'a str, handle: usize) -> (group: Group<'a>)
        requires
            valid_group_name(name@),
        ensures
            group@ == GroupView::fresh(name@, handle),
    {
        let group = Group { name, cgroup: handle, controllers: Vec::new(), committed: false };
        assert(group@.controllers =~= Seq::empty());
        group
    }

    /// Builds the descriptor of a group that the kernel should already hold,
    /// given the handle that the subsystem allocated for `name` and the
    /// status that it reported when asked to fill the descriptor from the
    /// kernel. On success the descriptor is committed and carries `name`; it
    /// lists no controllers, which are looked up one by one. On failure no
    /// descriptor is returned and the status is the error.
    pub fn get(name: &'a str, handle: usize, status: i32) -> (result: Result<
        Group<'a>,
        SubsystemError,
    >)
        requires
            valid_group_name(name@),
        ensures
            match result {
                Ok(group) => outcome(status) is Ok && group@ == GroupView::fetched(name@, handle),
                Err(error) => outcome(status) == Err::<(), SubsystemError>(error),
            },
    {
        let group = Group::new(name, handle);
        if status == 0 {
            let fetched = Group {
                name,
                cgroup: group.cgroup,
                controllers: Vec::new(),
                committed: true,
            };
            assert(fetched@.controllers =~= Seq::empty());
            Ok(fetched)
        } else {
            Err(SubsystemError(status))
        }
    }

    /// Attaches the controller `name` to the descriptor, given the reference
    /// that the subsystem returned for it. Only the in-memory descriptor
    /// changes. Names are not compared: attaching one twice gives two entries.
    pub fn add_controller(&mut self, name: &'a str, handle: usize) -> (controller: Controller<'a>)
        requires
            valid_controller_name(name@),
        ensures
            controller@ == (ControllerView { name: name@, handle }),
            final(self)@ == old(self)@.attach(controller@),
    {
        let controller = Controller { name, controller: handle };
        // `push` may unwind: the list grows outside the descriptor, which is
        // whole at every point where that could happen.
        proof {
            use_type_invariant(&*self);
        }
        let mut attached: Vec<Controller<'a>> = Vec::new();
        core::mem::swap(&mut self.controllers, &mut attached);
        attached.push(controller);
        core::mem::swap(&mut self.controllers, &mut attached);
        assert(self@.controllers =~= old(self)@.controllers.push(controller@));
        controller
    }

    /// Hands out the controller `name` of the descriptor, given the reference
    /// that the subsystem returned when asked to look it up. The reference is
    /// passed on as it came, null or not, and the descriptor is left as it
    /// was.
    pub fn get_controller(&mut self, name: &'a str, handle: usize) -> (controller: Controller<'a>)
        requires
            valid_controller_name(name@),
        ensures
            controller@ == (ControllerView { name: name@, handle }),
            final(self)@ == old(self)@,
    {
        Controller { name, controller: handle }
    }

    /// Commits the descriptor, given the status that the subsystem reported
    /// for the commit. On success the descriptor is committed and handed
    /// back; on failure it stays as it was and the status is the error.
    pub fn create(&mut self, status: i32) -> (result: Result<&Group<'a>, SubsystemError>)
        ensures
            final(self)@ == old(self)@.commit(status),
            match result {
                Ok(group) => outcome(status) is Ok && group@ == final(self)@,
                Err(error) => outcome(status) == Err::<(), SubsystemError>(error),
            },
    {
        proof {
            use_type_invariant(&*self);
        }
        if status == 0 {
            self.committed = true;
            Ok(self)
        } else {
            Err(SubsystemError(status))
        }
    }
}

} // verus!
