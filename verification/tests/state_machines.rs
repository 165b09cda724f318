//! Tests for the polled state machines, the virtualized alarms, and the small
//! containers.

use allow_pin::alarm::{self, AlarmState};
use allow_pin::alarm_future;
use allow_pin::allow_ref::{Ref, Ro, Rw};
use allow_pin::app::{App, AppFuture};
use allow_pin::async_util::{
    Client, ClientList, EmptyList, Forwarder, List, Poll, StaticMutCell, TockStatic,
};
use allow_pin::button::{Driver, Event};
use allow_pin::button_future::{self, map_interrupt_error, Button, ButtonFuture};
use allow_pin::button::InterruptError;
use allow_pin::combinator::WaitFirst;
use allow_pin::gpio::{self, GpioState};
use allow_pin::no_dynamic;
use allow_pin::rng::Rng;
use allow_pin::rng_future::{on_fetch_complete, LostBufferError, RngFuture, RngState, StartError};
use allow_pin::sync_cell::SyncCell;
use allow_pin::syscalls::Syscalls;
use allow_pin::task::{CurrentlyPolling, Task};
use allow_pin::time::{AlarmClock, AlarmFired, Clock};
use allow_pin::virt_time::{mux_dispatch_round, Mux, MuxClient};
use allow_pin::{DynamicType, ErrorCode, SharePrimitive};

/// A kernel whose answers are scripted per call kind; unscripted calls
/// answer success.
struct Sys {
    commands: Vec<isize>,
    subscribes: Vec<isize>,
}

impl Sys {
    fn ok() -> Sys {
        Sys { commands: vec![], subscribes: vec![] }
    }

    fn commands(commands: Vec<isize>) -> Sys {
        Sys { commands, subscribes: vec![] }
    }

    fn next(queue: &mut Vec<isize>) -> isize {
        if queue.is_empty() {
            0
        } else {
            queue.remove(0)
        }
    }
}

impl Syscalls for Sys {
    fn command(&mut self, _d: usize, _op: usize, _a0: usize, _a1: usize) -> isize {
        Sys::next(&mut self.commands)
    }

    fn subscribe(&mut self, _d: usize, _s: usize) -> isize {
        Sys::next(&mut self.subscribes)
    }

    fn allow(&mut self, _d: usize, _b: usize, _len: usize) -> isize {
        0
    }

    fn unallow(&mut self, _d: usize, _b: usize) -> isize {
        0
    }
}

/// A share primitive that accepts everything.
struct OkShares;

impl SharePrimitive for OkShares {
    fn share(&mut self, _d: u32, _b: u32, _len: usize, _t: DynamicType) -> Result<(), ErrorCode> {
        Ok(())
    }

    fn unshare(&mut self, _d: u32, _b: u32, _t: DynamicType) {}

    fn command(&mut self, _d: u32, _op: u32, _a0: u32, _a1: u32) -> Result<(), ErrorCode> {
        Ok(())
    }
}

#[derive(Clone, Copy)]
struct IgnoreEvents;

impl Forwarder<Event> for IgnoreEvents {
    fn invoke_callback(self, _response: Event) {}
}

#[derive(Clone, Copy)]
struct IgnoreBuffers;

impl Forwarder<Option<Vec<u8>>> for IgnoreBuffers {
    fn invoke_callback(self, _response: Option<Vec<u8>>) {}
}

#[derive(Clone, Copy)]
struct IgnoreAlarms;

impl Forwarder<AlarmFired> for IgnoreAlarms {
    fn invoke_callback(self, _response: AlarmFired) {}
}

#[test]
fn task_slot_round_trip() {
    let mut task: Task<u32> = Task::new();
    assert_eq!(task.spawn(7), Ok(()));
    let work = task.begin_poll();
    assert_eq!(work, Some(7));
    // Re-entrant spawn while polling is refused.
    assert_eq!(task.spawn(8), Err(CurrentlyPolling));
    // No wake arrived, so no second poll is requested.
    assert!(!task.end_poll(work, false));
    assert_eq!(task.begin_poll(), Some(7));
}

#[test]
fn task_wake_during_poll_requests_another() {
    let mut task: Task<u32> = Task::new();
    task.spawn(1).unwrap();
    let work = task.begin_poll();
    // A wake arrives while the work is lent out.
    assert_eq!(task.begin_poll(), None);
    assert!(task.end_poll(work, false));
}

#[test]
fn task_completed_work_is_dropped() {
    let mut task: Task<u32> = Task::new();
    task.spawn(1).unwrap();
    let work = task.begin_poll();
    assert!(!task.end_poll(work, true));
    assert_eq!(task.begin_poll(), None);
}

#[test]
fn wait_first_resolves_on_either_side() {
    let mut race = WaitFirst::new(1u8, 2u8);
    assert_eq!(*race.left_mut(), 1);
    assert_eq!(*race.right_mut(), 2);
    assert!(matches!(
        WaitFirst::<u8, u8>::first_ready(Poll::Ready(()), Poll::Pending),
        Poll::Ready(())
    ));
    assert!(matches!(
        WaitFirst::<u8, u8>::first_ready(Poll::Pending, Poll::Ready(())),
        Poll::Ready(())
    ));
    assert!(matches!(
        WaitFirst::<u8, u8>::first_ready(Poll::Pending, Poll::Pending),
        Poll::Pending
    ));
}

#[test]
fn button_wait_fires_on_matching_event() {
    let mut sys = Sys::ok();
    let driver = Driver::new(IgnoreEvents);
    let mut button = Button::new();
    let future = ButtonFuture::new(&mut button, &driver, &mut sys, 0, true).unwrap();
    assert!(matches!(future.poll(&button), Poll::Pending));
    // A different transition does not fire the wait.
    button.on_event(Event { index: 0, new_value: false });
    assert!(matches!(future.poll(&button), Poll::Pending));
    button.on_event(Event { index: 0, new_value: true });
    assert!(matches!(future.poll(&button), Poll::Ready(())));
}

#[test]
fn button_wait_is_exclusive_per_button() {
    let mut sys = Sys::ok();
    let driver = Driver::new(IgnoreEvents);
    let mut button = Button::new();
    let _future = ButtonFuture::new(&mut button, &driver, &mut sys, 0, true).unwrap();
    assert_eq!(
        ButtonFuture::new(&mut button, &driver, &mut sys, 0, false),
        Err(button_future::StartError::EBUSY)
    );
}

#[test]
fn button_wait_start_error_mapping() {
    let mut sys = Sys { commands: vec![], subscribes: vec![-11] };
    let driver = Driver::new(IgnoreEvents);
    let mut button = Button::new();
    assert_eq!(
        ButtonFuture::new(&mut button, &driver, &mut sys, 0, true),
        Err(button_future::StartError::ENODEVICE)
    );
}

#[test]
fn rng_wait_collects_the_filled_buffer() {
    let mut sys = Sys::ok();
    let mut rng = Rng::new(IgnoreBuffers);
    let mut state = RngState::Idle;
    let future = RngFuture::new(&mut state, &mut rng, &mut sys, vec![0; 4]).unwrap();
    assert!(matches!(future.poll(&mut state), Poll::Pending));
    // The completion arrives with the filled buffer.
    on_fetch_complete(&mut state, Some(vec![9, 9, 9, 9]));
    match future.poll(&mut state) {
        Poll::Ready(Ok(buffer)) => assert_eq!(buffer, vec![9, 9, 9, 9]),
        _ => panic!("expected the filled buffer"),
    }
    // The slot is idle again; collecting twice reports the buffer gone.
    assert!(matches!(future.poll(&mut state), Poll::Ready(Err(LostBufferError))));
}

#[test]
fn interrupt_errors_map_code_for_code() {
    assert_eq!(map_interrupt_error(InterruptError::FAIL), button_future::StartError::FAIL);
    assert_eq!(map_interrupt_error(InterruptError::ENOMEM), button_future::StartError::ENOMEM);
    assert_eq!(map_interrupt_error(InterruptError::EINVAL), button_future::StartError::EINVAL);
    assert_eq!(
        map_interrupt_error(InterruptError::ENODEVICE),
        button_future::StartError::ENODEVICE
    );
}

#[test]
fn rng_wait_start_errors_follow_the_driver() {
    let mut rng = Rng::new(IgnoreBuffers);
    let mut state = RngState::Idle;
    let mut sys = Sys { commands: vec![], subscribes: vec![-11] };
    assert!(matches!(
        RngFuture::new(&mut state, &mut rng, &mut sys, vec![1]),
        Err(StartError::ENODEVICE)
    ));
    let mut sys = Sys { commands: vec![], subscribes: vec![-1] };
    assert!(matches!(
        RngFuture::new(&mut state, &mut rng, &mut sys, vec![1]),
        Err(StartError::FAIL)
    ));
}

#[test]
fn rng_wait_refused_while_busy() {
    let mut sys = Sys::ok();
    let mut rng = Rng::new(IgnoreBuffers);
    let mut state = RngState::Busy;
    assert!(matches!(
        RngFuture::new(&mut state, &mut rng, &mut sys, vec![1]),
        Err(StartError::EBUSY)
    ));
}

#[test]
fn rng_lost_buffer_poisons_the_wait() {
    let mut sys = Sys::ok();
    let mut rng = Rng::new(IgnoreBuffers);
    let mut state = RngState::Idle;
    let future = RngFuture::new(&mut state, &mut rng, &mut sys, vec![0; 2]).unwrap();
    on_fetch_complete(&mut state, None);
    assert!(matches!(future.poll(&mut state), Poll::Ready(Err(LostBufferError))));
}

#[test]
fn gpio_button_wait() {
    let mut state = GpioState::new();
    let future = gpio::wait_button(&state);
    assert!(matches!(future.poll(&state), Poll::Pending));
    gpio::button_interrupt(&mut state, 1);
    assert!(matches!(future.poll(&state), Poll::Ready(true)));
}

#[test]
fn alarm_wait_resolves_after_interrupts() {
    let mut sys = Sys::commands(vec![
        32768, // timer frequency: period becomes 200 * 32768 / 1000 ticks
    ]);
    let mut state = AlarmState::new();
    alarm::init(&mut sys, &mut state);
    let future = alarm::wait(&state);
    assert!(matches!(future.poll(&state), Poll::Pending));
    alarm::alarm_interrupt(&mut sys, &mut state);
    assert!(matches!(future.poll(&state), Poll::Ready(())));
}

#[test]
fn app_state_machine_blinks_unless_button_held() {
    let mut sys = Sys::ok();
    let mut app = App::new();
    let alarm_state = AlarmState::new();
    app.start(&mut sys, &alarm_state);
    // Blinking: each alarm toggles the light.
    app.alarm_fired(&mut sys);
    app.alarm_fired(&mut sys);
    // Holding the button forces the light off and pauses blinking.
    app.button_change(&mut sys, true);
    app.alarm_fired(&mut sys);
    // Releasing the button turns the light on and resumes blinking.
    app.button_change(&mut sys, false);
    app.alarm_fired(&mut sys);
    // Two toggles, then off, then on, then one more toggle: the light is off.
    assert!(!app.light_on());
    assert!(!app.button_held());
    let driver = Driver::new(IgnoreEvents);
    app.init(&driver, &mut sys);
}

#[test]
fn app_light_follows_alarms_and_button() {
    let mut sys = Sys::ok();
    let mut app = App::new();
    assert!(!app.light_on());
    app.alarm_fired(&mut sys);
    assert!(app.light_on());
    app.alarm_fired(&mut sys);
    assert!(!app.light_on());
    app.button_change(&mut sys, true);
    assert!(app.button_held());
    assert!(!app.light_on());
    app.alarm_fired(&mut sys);
    assert!(!app.light_on());
    app.button_change(&mut sys, false);
    assert!(app.light_on());
}

#[test]
fn app_future_polls_both_waits() {
    // The button reads as released (command answers 0), so a resolved alarm
    // wait toggles the light.
    let mut sys = Sys::ok();
    let alarm_state = AlarmState::new();
    let gpio_state = GpioState::new();
    let mut app = AppFuture::new(&mut sys, &alarm_state, &gpio_state);
    assert!(matches!(
        app.poll(&mut sys, &alarm_state, &gpio_state),
        Poll::Pending
    ));
}

#[test]
fn alarm_clock_wait() {
    let mut sys = Sys::commands(vec![100, 0, 100, 0, 150]);
    let mut clock = Clock::new(IgnoreAlarms);
    clock.init(&mut sys);
    let future = alarm_future::AlarmFuture::new(&clock, &mut sys, 500);
    // Polling registers the nearer alarm and stays pending.
    assert!(matches!(future.poll(&mut clock, &mut sys), Poll::Pending));
    assert_eq!(clock.get_alarm(), 600);
}

#[test]
fn mux_fires_expired_clients_and_rearms() {
    let mut sys = Sys::commands(vec![100, 0]);
    let mut clock = Clock::new(IgnoreAlarms);
    clock.init(&mut sys);
    let mut mux = Mux::new();
    let first = mux.add_client(MuxClient::new());
    let second = mux.add_client(MuxClient::new());
    let third = mux.add_client(MuxClient::new());
    assert_eq!(mux.len(), 3);
    mux.set_client_alarm(&mut sys, &mut clock, first, 5_000_000_000).unwrap();
    mux.set_client_alarm(&mut sys, &mut clock, second, 6_000_000_000).unwrap();
    mux.set_client_alarm(&mut sys, &mut clock, third, 7_000_000_000).unwrap();
    let fired = mux.fire_expired(5_500_000_000);
    assert_eq!(fired, vec![first]);
    assert_eq!(mux.next_alarm(), 6_000_000_000);
    let fired = mux.fire_expired(9_000_000_000);
    assert_eq!(fired, vec![second, third]);
    assert_eq!(mux.next_alarm(), u64::MAX);
}

#[test]
fn mux_dispatch_round_reports_expired_indices() {
    // Clock time comes out as 400; one client's setpoint (300) has expired,
    // the other (5e9, beyond the update period) has not.
    let mut sys = Sys::commands(vec![100, 0, 0, 150, 400]);
    let mut clock = Clock::new(IgnoreAlarms);
    clock.init(&mut sys);
    let mut mux = Mux::new();
    let a = mux.add_client(MuxClient::new());
    let b = mux.add_client(MuxClient::new());
    mux.set_client_alarm(&mut sys, &mut clock, a, 300).unwrap();
    mux.set_client_alarm(&mut sys, &mut clock, b, 5_000_000_000).unwrap();
    let (fired, _again) = mux_dispatch_round(&mut mux, &mut clock, &mut sys);
    assert_eq!(fired, vec![a]);
    assert_eq!(mux.next_alarm(), 5_000_000_000);
}

#[test]
fn mux_client_alarm_queries() {
    let client = MuxClient::new();
    assert_eq!(client.get_alarm(), u64::MAX);
}

#[test]
fn static_ref_share_and_get() {
    let data: &'static u32 = Box::leak(Box::new(99));
    let mut kernel = OkShares;
    let mut handle: Ref<Ro, u32> = Ref::new(data);
    assert_eq!(handle.get(), Some(&99));
    handle.share(&mut kernel, 1, 2).unwrap();
    assert_eq!(handle.get(), None);
    handle.unshare_if_shared(&mut kernel);
    assert_eq!(handle.get(), Some(&99));
}

#[test]
fn static_ref_share_is_exclusive() {
    let data: &'static u32 = Box::leak(Box::new(1));
    let mut kernel = OkShares;
    let mut handle: Ref<Rw, u32> = Ref::new(data);
    handle.share(&mut kernel, 1, 2).unwrap();
    assert_eq!(handle.share(&mut kernel, 1, 2), Err(allow_pin::ALREADY_SHARED));
}

#[test]
fn fully_static_buffer_operations() {
    let mut kernel = OkShares;
    let mut buffer: no_dynamic::Buffer<allow_pin::StaticRw, [u8; 4], 3, 1> =
        no_dynamic::Buffer::from_storage([1, 2, 3, 4]);
    buffer.allow(&mut kernel).unwrap();
    // Retrieving the storage revokes the share unconditionally.
    assert_eq!(*buffer.buffer_mut(&mut kernel), [1, 2, 3, 4]);
    let mut spare: no_dynamic::Buffer<allow_pin::StaticRw, [u8; 4], 3, 1> =
        no_dynamic::Buffer::from_storage([5, 6, 7, 8]);
    let (storage, result) = buffer.replace_with(&mut kernel, &mut spare);
    assert_eq!(result, Ok(()));
    assert_eq!(*storage, [1, 2, 3, 4]);
}

#[test]
fn fully_static_read_only_buffer() {
    let mut kernel = OkShares;
    let buffer: no_dynamic::Buffer<allow_pin::StaticRo, u16, 2, 0> =
        no_dynamic::Buffer::from_storage(515);
    buffer.allow_ro(&mut kernel).unwrap();
    assert_eq!(*buffer.buffer(), 515);
    let spare: no_dynamic::Buffer<allow_pin::StaticRo, u16, 2, 0> =
        no_dynamic::Buffer::from_storage(1029);
    let (storage, result) = buffer.replace_with_ro(&mut kernel, &spare);
    assert_eq!(result, Ok(()));
    assert_eq!(*storage, 515);
}

#[test]
fn sync_cell_operations() {
    let mut cell = SyncCell::new(3u32);
    assert_eq!(cell.get(), 3);
    cell.set(4);
    assert_eq!(cell.replace(5), 4);
    let mut other = SyncCell::new(9u32);
    cell.swap(&mut other);
    assert_eq!(cell.get(), 9);
    assert_eq!(other.get(), 5);
    *cell.get_mut() = 10;
    assert_eq!(cell.take(), 10);
    assert_eq!(cell.get(), 0);
    assert_eq!(cell.into_inner(), 0);
}

#[test]
fn static_mut_cell_hands_out_exclusively() {
    let mut cell = StaticMutCell::new(7u8);
    let value = cell.get();
    assert_eq!(value, Some(7));
    // While lent out, nothing more is handed out.
    assert_eq!(cell.get(), None);
    cell.unborrow(7);
    assert_eq!(cell.get(), Some(7));
}

#[test]
fn tock_static_wraps_a_value() {
    let mut wrapped = TockStatic::new(5u32);
    assert_eq!(*wrapped.get(), 5);
    *wrapped.get_mut() = 6;
    assert_eq!(*wrapped.get(), 6);
}

struct CountingClient {
    seen: usize,
}

impl Client<u32> for CountingClient {
    fn callback(&mut self, _response: u32) {
        self.seen += 1;
    }
}

#[test]
fn client_lists_know_their_length() {
    let empty: EmptyList<u32> = EmptyList::new();
    assert_eq!(empty.len(), 0);
    let one = ClientList::new(CountingClient { seen: 0 }, EmptyList::new());
    assert_eq!(one.len(), 1);
    let mut two = ClientList::new(CountingClient { seen: 0 }, one);
    assert_eq!(two.len(), 2);
    two.client_mut().callback(5);
    assert_eq!(two.rest().len(), 1);
}
