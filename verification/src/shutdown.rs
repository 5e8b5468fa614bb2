//! Shutting the daemon down.

use vstd::prelude::*;

verus! {

/// A part of the shutdown. Most of them wait for threads to end, so a part that does not come to its
/// end holds up those behind it.
#[derive(Clone, Copy, Debug, PartialEq, Eq, Structural)]
pub enum ShutdownStep {
    DesktopDisplays,
    /// End the target with this number.
    StopTarget(usize),
    ClearTargets,
    /// End the controllers of fans, coolers and colours.
    Controllers,
    /// Drop the reference to the colour controller that the state of the IPC holds.
    DropRgbReference,
    /// Drop the devices.
    ClearRegistry,
    Wireless,
    OpenRgb,
    Ipc,
}

impl ShutdownStep {
    /// What the log calls the part of the shutdown that ends with this step.
    pub fn marker(&self) -> (name: Option<&'static str>)
        ensures
            match *self {
                ShutdownStep::DesktopDisplays => name is Some && name->0@ == "desktop_displays"@,
                ShutdownStep::ClearTargets => name is Some && name->0@ == "targets"@,
                ShutdownStep::Controllers => name is Some && name->0@ == "controllers"@,
                ShutdownStep::ClearRegistry => name is Some && name->0@ == "registry"@,
                ShutdownStep::Wireless => name is Some && name->0@ == "wireless"@,
                ShutdownStep::OpenRgb => name is Some && name->0@ == "openrgb"@,
                ShutdownStep::Ipc => name is Some && name->0@ == "ipc"@,
                ShutdownStep::StopTarget(_) | ShutdownStep::DropRgbReference => name is None,
            },
    {
        match self {
            ShutdownStep::DesktopDisplays => Some("desktop_displays"),
            ShutdownStep::ClearTargets => Some("targets"),
            ShutdownStep::Controllers => Some("controllers"),
            ShutdownStep::ClearRegistry => Some("registry"),
            ShutdownStep::Wireless => Some("wireless"),
            ShutdownStep::OpenRgb => Some("openrgb"),
            ShutdownStep::Ipc => Some("ipc"),
            ShutdownStep::StopTarget(_) | ShutdownStep::DropRgbReference => None,
        }
    }
}

/// The steps of a shutdown with so many targets.
pub open spec fn shutdown_steps(targets: nat) -> Seq<ShutdownStep> {
    seq![ShutdownStep::DesktopDisplays] + Seq::new(
        targets,
        |i: int| ShutdownStep::StopTarget(i as usize),
    ) + seq![
        ShutdownStep::ClearTargets,
        ShutdownStep::Controllers,
        ShutdownStep::DropRgbReference,
        ShutdownStep::ClearRegistry,
        ShutdownStep::Wireless,
        ShutdownStep::OpenRgb,
        ShutdownStep::Ipc,
    ]
}

/// The daemon's devices and services.
#[derive(Clone, Copy, Debug, PartialEq, Eq, Structural)]
pub struct ServiceManager {
    /// How many targets it drives.
    pub targets: usize,
}

impl ServiceManager {
    /// Shuts everything down: gives the steps in their order. There are no targets afterwards.
    pub fn shutdown(&mut self) -> (steps: Vec<ShutdownStep>)
        ensures
            steps@ == shutdown_steps(old(self).targets as nat),
            final(self).targets == 0,
    {
        let targets = self.targets;
        let mut steps: Vec<ShutdownStep> = Vec::new();
        steps.push(ShutdownStep::DesktopDisplays);
        let mut target: usize = 0;
        while target < targets
            invariant
                target <= targets,
                steps@ == seq![ShutdownStep::DesktopDisplays] + Seq::new(
                    target as nat,
                    |i: int| ShutdownStep::StopTarget(i as usize),
                ),
            decreases targets - target,
        {
            steps.push(ShutdownStep::StopTarget(target));
            target = target + 1;
            assert(steps@ =~= seq![ShutdownStep::DesktopDisplays] + Seq::new(
                target as nat,
                |i: int| ShutdownStep::StopTarget(i as usize),
            ));
        }
        self.targets = 0;
        steps.push(ShutdownStep::ClearTargets);
        steps.push(ShutdownStep::Controllers);
        steps.push(ShutdownStep::DropRgbReference);
        steps.push(ShutdownStep::ClearRegistry);
        steps.push(ShutdownStep::Wireless);
        steps.push(ShutdownStep::OpenRgb);
        steps.push(ShutdownStep::Ipc);
        steps
    }
}

/// `first` is done, and wherever `second` is done, `first` has been done before.
pub open spec fn comes_before(
    steps: Seq<ShutdownStep>,
    first: ShutdownStep,
    second: ShutdownStep,
) -> bool {
    exists|i: int|
        0 <= i < steps.len() && steps[i] == first && forall|j: int|
            0 <= j < steps.len() && #[trigger] steps[j] == second ==> i < j
}

/// Every target is ended before the targets are dropped, and after the desktop displays.
pub proof fn targets_stop_before_they_are_dropped(targets: usize, target: usize)
    requires
        target < targets,
    ensures
        comes_before(
            shutdown_steps(targets as nat),
            ShutdownStep::StopTarget(target),
            ShutdownStep::ClearTargets,
        ),
        comes_before(
            shutdown_steps(targets as nat),
            ShutdownStep::DesktopDisplays,
            ShutdownStep::StopTarget(target),
        ),
{
    let steps = shutdown_steps(targets as nat);
    assert(steps[0] == ShutdownStep::DesktopDisplays);
    assert(steps[1 + target as int] == ShutdownStep::StopTarget(target));
}

/// The reference to the colour controller is dropped before the devices are, so that the devices are
/// released; and the controllers have ended by then.
pub proof fn rgb_reference_goes_before_the_registry(targets: usize)
    ensures
        comes_before(
            shutdown_steps(targets as nat),
            ShutdownStep::DropRgbReference,
            ShutdownStep::ClearRegistry,
        ),
        comes_before(
            shutdown_steps(targets as nat),
            ShutdownStep::Controllers,
            ShutdownStep::DropRgbReference,
        ),
{
    let steps = shutdown_steps(targets as nat);
    assert(steps[2 + targets as int] == ShutdownStep::Controllers);
    assert(steps[3 + targets as int] == ShutdownStep::DropRgbReference);
}

/// A shutdown does each of its steps once, in this order: the desktop displays, every target by its
/// number, the list of targets, the controllers, the reference to the colour controller, the devices,
/// the wireless link, the colour server and the IPC.
pub proof fn shutdown_does_everything_in_order(targets: usize)
    ensures
        ({
            let steps = shutdown_steps(targets as nat);
            let n = targets as int;
            &&& steps.len() == n + 8
            &&& steps[0] == ShutdownStep::DesktopDisplays
            &&& forall|at: int|
                1 <= at <= n ==> #[trigger] steps[at] == ShutdownStep::StopTarget((at - 1) as usize)
            &&& steps[n + 1] == ShutdownStep::ClearTargets
            &&& steps[n + 2] == ShutdownStep::Controllers
            &&& steps[n + 3] == ShutdownStep::DropRgbReference
            &&& steps[n + 4] == ShutdownStep::ClearRegistry
            &&& steps[n + 5] == ShutdownStep::Wireless
            &&& steps[n + 6] == ShutdownStep::OpenRgb
            &&& steps[n + 7] == ShutdownStep::Ipc
        }),
{
}

} // verus!
