//! The base renderer's bookkeeping: its configuration, the frames in flight
//! it cycles through, and its frame statistics.
use vstd::prelude::*;

verus! {

/// How the base renderer is set up.
#[derive(Debug, Clone, Copy)]
pub struct RHIConfig<'a> {
    pub app_name: &'a str,
    pub max_frame_in_flight: u32,
}

impl<'a> RHIConfig<'a> {
    /// The configuration a builder starts from: the app called "Ysera App",
    /// with two frames in flight.
    pub fn builder() -> (r: RHIConfig<'static>)
        ensures
            r.app_name@ == "Ysera App"@,
            r.max_frame_in_flight == 2,
    {
        RHIConfig { app_name: "Ysera App", max_frame_in_flight: 2 }
    }

    pub fn app_name(self, app_name: &'a str) -> (r: Self)
        ensures
            r.app_name == app_name,
            r.max_frame_in_flight == self.max_frame_in_flight,
    {
        RHIConfig { app_name, ..self }
    }

    pub fn max_frame_in_flight(self, max_frame_in_flight: u32) -> (r: Self)
        ensures
            r.app_name == self.app_name,
            r.max_frame_in_flight == max_frame_in_flight,
    {
        RHIConfig { max_frame_in_flight, ..self }
    }

    pub fn build(self) -> (r: Self)
        ensures
            r.app_name == self.app_name,
            r.max_frame_in_flight == self.max_frame_in_flight,
    {
        self
    }
}

/// The per-frame objects of the frames in flight, and which frame is current.
pub struct InFlightFrames<T> {
    per_frames: Vec<T>,
    current_frame: usize,
}

impl<T> InFlightFrames<T> {
    /// The per-frame objects, in order.
    pub closed spec fn frames(&self) -> Seq<T> {
        self.per_frames@
    }

    /// The index of the current frame.
    pub closed spec fn current(&self) -> nat {
        self.current_frame as nat
    }

    /// There is a frame, and the current one is among them.
    pub closed spec fn wf(&self) -> bool {
        self.current_frame < self.per_frames.len()
    }

    /// Frames in flight starting at the first of the given frames.
    pub fn new(per_frames: Vec<T>) -> (r: Self)
        requires
            per_frames.len() > 0,
        ensures
            r.wf(),
            r.frames() == per_frames@,
            r.current() == 0,
    {
        InFlightFrames { per_frames, current_frame: 0 }
    }

    /// Moves on to the next frame, after the last back to the first.
    pub fn next(&mut self)
        requires
            old(self).wf(),
        ensures
            final(self).wf(),
            final(self).frames() == old(self).frames(),
            final(self).current() == (old(self).current() + 1) % old(self).frames().len(),
    {
        self.current_frame = (self.current_frame + 1) % self.per_frames.len();
    }

    /// The current frame's objects.
    pub fn current_frame(&self) -> (r: &T)
        requires
            self.wf(),
        ensures
            *r == self.frames()[self.current() as int],
    {
        &self.per_frames[self.current_frame]
    }

    pub fn current_index(&self) -> (r: usize)
        ensures
            r == self.current(),
    {
        self.current_frame
    }

    pub fn len(&self) -> (r: usize)
        ensures
            r == self.frames().len(),
    {
        self.per_frames.len()
    }
}

/// Moving on as many times as there are frames comes back to the same
/// frame, whatever frame one starts from.
pub proof fn lemma_in_flight_frames_cycle(count: nat, start: nat, steps: nat)
    requires
        count > 0,
        start < count,
    ensures
        (start + steps * count) % count == start,
{
    vstd::arithmetic::div_mod::lemma_mod_multiples_vanish(steps as int, start as int, count as int);
    vstd::arithmetic::div_mod::lemma_small_mod(start, count);
    assert(steps * count == count * steps) by (nonlinear_arith);
}

/// A log of the most recent values, at most a given number of them: adding
/// to a full log drops its oldest value.
pub struct Queue<T> {
    items: Vec<T>,
    max_size: usize,
}

/// The values of a log that keeps up to `max_size` values after `value` is
/// pushed: the oldest one is dropped when the log is full.
pub open spec fn spec_logged<T>(items: Seq<T>, max_size: nat, value: T) -> Seq<T> {
    if items.len() == max_size {
        items.drop_first().push(value)
    } else {
        items.push(value)
    }
}

impl<T> Queue<T> {
    /// The values, oldest first.
    pub closed spec fn items(&self) -> Seq<T> {
        self.items@
    }

    /// How many values the log keeps.
    pub closed spec fn max_size(&self) -> nat {
        self.max_size as nat
    }

    /// The log holds no more values than it keeps.
    pub closed spec fn wf(&self) -> bool {
        self.items.len() <= self.max_size
    }

    /// An empty log that keeps up to `max_size` values.
    pub fn new(max_size: usize) -> (r: Self)
        ensures
            r.wf(),
            r.items() == Seq::<T>::empty(),
            r.max_size() == max_size,
    {
        Queue { items: Vec::with_capacity(max_size), max_size }
    }

    /// Adds a value, dropping the oldest one when the log is full.
    pub fn push(&mut self, value: T)
        requires
            old(self).wf(),
            old(self).max_size() > 0,
        ensures
            final(self).wf(),
            final(self).max_size() == old(self).max_size(),
            final(self).items() == spec_logged(old(self).items(), old(self).max_size(), value),
    {
        if self.items.len() == self.max_size {
            self.items.remove(0);
        }
        self.items.push(value);
    }

    pub fn len(&self) -> (r: usize)
        ensures
            r == self.items().len(),
    {
        self.items.len()
    }

    pub fn get(&self, i: usize) -> (r: &T)
        requires
            i < self.items().len(),
        ensures
            *r == self.items()[i as int],
    {
        &self.items[i]
    }
}

/// The log keeps the last values pushed: after a push its newest value is
/// the one pushed, it never holds more than it keeps, and it only drops a
/// value when full.
pub proof fn lemma_queue_keeps_the_newest<T>(items: Seq<T>, max_size: nat, value: T)
    requires
        items.len() <= max_size,
        max_size > 0,
    ensures
        ({
            let pushed = if items.len() == max_size {
                items.drop_first().push(value)
            } else {
                items.push(value)
            };
            &&& pushed.len() <= max_size
            &&& pushed.last() == value
            &&& pushed.len() == if items.len() == max_size {
                max_size as int
            } else {
                items.len() + 1int
            }
            &&& pushed.drop_last() == if items.len() == max_size {
                items.drop_first()
            } else {
                items
            }
        }),
{
    let pushed = if items.len() == max_size {
        items.drop_first().push(value)
    } else {
        items.push(value)
    };
    assert(pushed.drop_last() =~= if items.len() == max_size {
        items.drop_first()
    } else {
        items
    });
}

/// Nanoseconds in a second.
pub const ONE_SEC_NANOS: u64 = 1_000_000_000;

/// How many timings each log keeps.
pub const MAX_LOG_SIZE: usize = 1000;

/// Frame timing statistics. Times are in nanoseconds; the logs hold whole
/// milliseconds.
pub struct FrameStats {
    pub previous_frame_time: u64,
    pub frame_time: u64,
    pub cpu_time: u64,
    pub gpu_time: u64,
    pub frame_time_ms_log: Queue<u64>,
    pub cpu_time_ms_log: Queue<u64>,
    pub gpu_time_ms_log: Queue<u64>,
    pub total_frame_count: u32,
    pub frame_count: u32,
    pub fps_counter: u32,
    pub timer: u64,
}

impl FrameStats {
    /// The logs hold no more than they keep, and each keeps `MAX_LOG_SIZE`.
    pub open spec fn wf(&self) -> bool {
        &&& self.frame_time_ms_log.wf()
        &&& self.cpu_time_ms_log.wf()
        &&& self.gpu_time_ms_log.wf()
        &&& self.frame_time_ms_log.max_size() == MAX_LOG_SIZE
        &&& self.cpu_time_ms_log.max_size() == MAX_LOG_SIZE
        &&& self.gpu_time_ms_log.max_size() == MAX_LOG_SIZE
    }

    /// No time measured, no frame counted, empty logs.
    pub fn default() -> (r: Self)
        ensures
            r.wf(),
            r.previous_frame_time == 0 && r.frame_time == 0 && r.cpu_time == 0 && r.gpu_time == 0,
            r.total_frame_count == 0 && r.frame_count == 0 && r.fps_counter == 0 && r.timer == 0,
            r.frame_time_ms_log.items().len() == 0,
            r.cpu_time_ms_log.items().len() == 0,
            r.gpu_time_ms_log.items().len() == 0,
    {
        FrameStats {
            previous_frame_time: 0,
            frame_time: 0,
            cpu_time: 0,
            gpu_time: 0,
            frame_time_ms_log: Queue::new(MAX_LOG_SIZE),
            cpu_time_ms_log: Queue::new(MAX_LOG_SIZE),
            gpu_time_ms_log: Queue::new(MAX_LOG_SIZE),
            total_frame_count: 0,
            frame_count: 0,
            fps_counter: 0,
            timer: 0,
        }
    }

    /// Counts a frame: the CPU time is what of the previous frame's time the
    /// GPU did not take; each time is logged in whole milliseconds; and once
    /// more than a second has gone by, the frames counted in it become the
    /// frames per second and a second is taken off the timer.
    pub fn tick(&mut self)
        requires
            old(self).wf(),
            old(self).total_frame_count < u32::MAX,
            old(self).frame_count < u32::MAX,
            old(self).timer + old(self).frame_time <= u64::MAX,
        ensures
            final(self).wf(),
            final(self).cpu_time == (if old(self).previous_frame_time >= old(self).gpu_time {
                old(self).previous_frame_time - old(self).gpu_time
            } else {
                0
            }),
            final(self).frame_time_ms_log.items() == spec_logged(
                old(self).frame_time_ms_log.items(),
                old(self).frame_time_ms_log.max_size(),
                old(self).previous_frame_time / 1_000_000,
            ),
            final(self).cpu_time_ms_log.items() == spec_logged(
                old(self).cpu_time_ms_log.items(),
                old(self).cpu_time_ms_log.max_size(),
                final(self).cpu_time / 1_000_000,
            ),
            final(self).gpu_time_ms_log.items() == spec_logged(
                old(self).gpu_time_ms_log.items(),
                old(self).gpu_time_ms_log.max_size(),
                old(self).gpu_time / 1_000_000,
            ),
            final(self).total_frame_count == old(self).total_frame_count + 1,
            old(self).timer + old(self).frame_time > ONE_SEC_NANOS ==> {
                &&& final(self).fps_counter == old(self).frame_count + 1
                &&& final(self).frame_count == 0
                &&& final(self).timer == old(self).timer + old(self).frame_time - ONE_SEC_NANOS
            },
            old(self).timer + old(self).frame_time <= ONE_SEC_NANOS ==> {
                &&& final(self).fps_counter == old(self).fps_counter
                &&& final(self).frame_count == old(self).frame_count + 1
                &&& final(self).timer == old(self).timer + old(self).frame_time
            },
            final(self).previous_frame_time == old(self).previous_frame_time,
            final(self).frame_time == old(self).frame_time,
            final(self).gpu_time == old(self).gpu_time,
    {
        self.cpu_time = self.previous_frame_time.saturating_sub(self.gpu_time);
        self.frame_time_ms_log.push(self.previous_frame_time / 1_000_000);
        self.cpu_time_ms_log.push(self.cpu_time / 1_000_000);
        self.gpu_time_ms_log.push(self.gpu_time / 1_000_000);
        self.total_frame_count = self.total_frame_count + 1;
        self.frame_count = self.frame_count + 1;
        self.timer = self.timer + self.frame_time;
        if self.timer > ONE_SEC_NANOS {
            self.fps_counter = self.frame_count;
            self.frame_count = 0;
            self.timer = self.timer - ONE_SEC_NANOS;
        }
    }

    /// Records a new frame time, keeping the last one as the previous.
    pub fn set_frame_time(&mut self, frame_time: u64)
        ensures
            final(self).previous_frame_time == old(self).frame_time,
            final(self).frame_time == frame_time,
            final(self).gpu_time == old(self).gpu_time,
            final(self).timer == old(self).timer,
            final(self).frame_count == old(self).frame_count,
            final(self).total_frame_count == old(self).total_frame_count,
            final(self).fps_counter == old(self).fps_counter,
            final(self).frame_time_ms_log == old(self).frame_time_ms_log,
            final(self).cpu_time_ms_log == old(self).cpu_time_ms_log,
            final(self).gpu_time_ms_log == old(self).gpu_time_ms_log,
    {
        self.previous_frame_time = self.frame_time;
        self.frame_time = frame_time;
    }

    pub fn set_gpu_time_time(&mut self, gpu_time: u64)
        ensures
            final(self).gpu_time == gpu_time,
            final(self).previous_frame_time == old(self).previous_frame_time,
            final(self).frame_time == old(self).frame_time,
            final(self).timer == old(self).timer,
            final(self).frame_count == old(self).frame_count,
            final(self).total_frame_count == old(self).total_frame_count,
            final(self).fps_counter == old(self).fps_counter,
            final(self).frame_time_ms_log == old(self).frame_time_ms_log,
            final(self).cpu_time_ms_log == old(self).cpu_time_ms_log,
            final(self).gpu_time_ms_log == old(self).gpu_time_ms_log,
    {
        self.gpu_time = gpu_time;
    }
}

} // verus!
