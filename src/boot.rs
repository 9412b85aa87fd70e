//! Boot sequencing: bring-up stages, the kernel context and the fault path.

use vstd::prelude::*;
use vstd::string::StringSliceAdditionalSpecFns;
use crate::vga::{Console, ScreenState, blank_screen, printed, clear_screen, print};
use crate::memory::BumpAllocator;
use crate::{gdt, idt, paging, memory, pit, scheduler, keyboard, disk, syscall};

verus! {

/// First line on the console once it is ready.
pub const BANNER: &'static str = "TreasureOS v0.1\n";

/// Last line on the console once every subsystem is up.
pub const COMPLETE: &'static str = "Initialization complete.\n";

/// The diagnostic printed on an unrecoverable fault.
pub const PANIC_MESSAGE: &'static str = "KERNEL PANIC!\n";

/// Timer frequency requested at boot.
pub const TIMER_FREQUENCY_HZ: u32 = 1000;

/// A stage of bring-up, in the order in which they are entered.
#[derive(Clone, Copy, Debug, PartialEq, Eq, Structural)]
pub enum Stage {
    Cold,
    ConsoleReady,
    DescriptorTablesReady,
    InterruptsReady,
    PagingReady,
    MemoryReady,
    TimerReady,
    SchedulerReady,
    KeyboardReady,
    DiskReady,
    SyscallReady,
    Idle,
}

/// The stage that follows `s`; `Idle` has none.
pub open spec fn successor(s: Stage) -> Option<Stage> {
    match s {
        Stage::Cold => Some(Stage::ConsoleReady),
        Stage::ConsoleReady => Some(Stage::DescriptorTablesReady),
        Stage::DescriptorTablesReady => Some(Stage::InterruptsReady),
        Stage::InterruptsReady => Some(Stage::PagingReady),
        Stage::PagingReady => Some(Stage::MemoryReady),
        Stage::MemoryReady => Some(Stage::TimerReady),
        Stage::TimerReady => Some(Stage::SchedulerReady),
        Stage::SchedulerReady => Some(Stage::KeyboardReady),
        Stage::KeyboardReady => Some(Stage::DiskReady),
        Stage::DiskReady => Some(Stage::SyscallReady),
        Stage::SyscallReady => Some(Stage::Idle),
        Stage::Idle => None,
    }
}

/// The stages that a boot enters, in order.
pub open spec fn boot_sequence() -> Seq<Stage> {
    seq![
        Stage::ConsoleReady,
        Stage::DescriptorTablesReady,
        Stage::InterruptsReady,
        Stage::PagingReady,
        Stage::MemoryReady,
        Stage::TimerReady,
        Stage::SchedulerReady,
        Stage::KeyboardReady,
        Stage::DiskReady,
        Stage::SyscallReady,
        Stage::Idle,
    ]
}

/// The console after a boot from any valid screen.
pub open spec fn booted_screen() -> ScreenState {
    printed(printed(blank_screen(), BANNER.spec_bytes()), COMPLETE.spec_bytes())
}

/// The stage that follows `s`, if any.
pub fn next_stage(s: Stage) -> (r: Option<Stage>)
    ensures
        r == successor(s),
{
    match s {
        Stage::Cold => Some(Stage::ConsoleReady),
        Stage::ConsoleReady => Some(Stage::DescriptorTablesReady),
        Stage::DescriptorTablesReady => Some(Stage::InterruptsReady),
        Stage::InterruptsReady => Some(Stage::PagingReady),
        Stage::PagingReady => Some(Stage::MemoryReady),
        Stage::MemoryReady => Some(Stage::TimerReady),
        Stage::TimerReady => Some(Stage::SchedulerReady),
        Stage::SchedulerReady => Some(Stage::KeyboardReady),
        Stage::KeyboardReady => Some(Stage::DiskReady),
        Stage::DiskReady => Some(Stage::SyscallReady),
        Stage::SyscallReady => Some(Stage::Idle),
        Stage::Idle => None,
    }
}

/// The kernel's own state, threaded through bring-up: the console, the frame
/// allocator, the current stage and every stage entered so far.
pub struct Kernel {
    pub console: Console,
    pub frames: BumpAllocator,
    pub stage: Stage,
    pub trace: Vec<Stage>,
}

impl Kernel {
    /// A kernel before bring-up: cleared console, allocator at its base, `Cold`.
    pub fn new() -> (k: Kernel)
        ensures
            k.console.wf(),
            k.console@ == blank_screen(),
            k.frames@ == crate::memory::FRAME_BASE,
            k.stage == Stage::Cold,
            k.trace@.len() == 0,
    {
        Kernel {
            console: Console::new(),
            frames: BumpAllocator::new(),
            stage: Stage::Cold,
            trace: Vec::new(),
        }
    }
}

fn enter_next_stage(k: &mut Kernel)
    requires
        successor(old(k).stage) is Some,
    ensures
        final(k).stage == successor(old(k).stage)->Some_0,
        final(k).trace@ == old(k).trace@.push(final(k).stage),
        final(k).console == old(k).console,
        final(k).frames == old(k).frames,
{
    if let Some(s) = next_stage(k.stage) {
        k.stage = s;
        k.trace.push(s);
    }
}

/// Brings the kernel from `Cold` to `Idle`: clears the console and prints the
/// banner, initialises each subsystem once in the fixed order, then prints the
/// completion line. Every stage entered is appended to the trace.
pub fn boot(k: &mut Kernel)
    requires
        old(k).stage == Stage::Cold,
        old(k).console.wf(),
    ensures
        final(k).stage == Stage::Idle,
        final(k).trace@ == old(k).trace@ + boot_sequence(),
        final(k).console.wf(),
        final(k).console@ == booted_screen(),
        final(k).frames == old(k).frames,
{
    clear_screen(&mut k.console);
    print(&mut k.console, BANNER);
    enter_next_stage(k);
    gdt::init();
    enter_next_stage(k);
    idt::init();
    enter_next_stage(k);
    paging::init();
    enter_next_stage(k);
    memory::init();
    enter_next_stage(k);
    pit::init(TIMER_FREQUENCY_HZ);
    enter_next_stage(k);
    scheduler::init();
    enter_next_stage(k);
    keyboard::init();
    enter_next_stage(k);
    disk::init();
    enter_next_stage(k);
    syscall::init();
    enter_next_stage(k);
    print(&mut k.console, COMPLETE);
    enter_next_stage(k);
    proof {
        assert(k.trace@ =~= old(k).trace@ + boot_sequence());
    }
}

/// The fault path's output: prints the fixed diagnostic line at the cursor.
pub fn report_fault(con: &mut Console)
    requires
        old(con).wf(),
    ensures
        final(con).wf(),
        final(con)@ == printed(old(con)@, PANIC_MESSAGE.spec_bytes()),
{
    print(con, PANIC_MESSAGE);
}

} // verus!
