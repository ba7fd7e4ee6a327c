use vstd::prelude::*;

verus! {

/// How a loop paces itself and when it publishes; times in microseconds.
#[derive(Clone, Copy, Debug)]
pub struct LoopPolicy {
    /// Least time from the start of one tick to the start of the next.
    pub tick: u64,
    /// Least time from one publish attempt to the next.
    pub publish_interval: u64,
    /// Whether a frame equal to the published one is held back.
    pub detect_changes: bool,
}

impl LoopPolicy {
    /// The pace of the synthetic variant: a tick of 16 ms, an attempt
    /// every 33 ms, and nothing published twice in a row.
    pub fn procedural() -> (p: LoopPolicy)
        ensures
            p == (LoopPolicy { tick: 16_000, publish_interval: 33_000, detect_changes: true }),
    {
        LoopPolicy { tick: 16_000, publish_interval: 33_000, detect_changes: true }
    }

    /// The pace over a source image: a tick of 10 ms, and every frame
    /// published.
    pub fn image_driven() -> (p: LoopPolicy)
        ensures
            p == (LoopPolicy { tick: 10_000, publish_interval: 0, detect_changes: false }),
    {
        LoopPolicy { tick: 10_000, publish_interval: 0, detect_changes: false }
    }
}

/// `a - b`, or zero where `b` is the later of the two.
pub open spec fn span(a: u64, b: u64) -> u64 {
    if a >= b {
        (a - b) as u64
    } else {
        0
    }
}

/// What a loop knows between two ticks.
pub struct LoopModel {
    pub policy: LoopPolicy,
    /// Simulated time that has passed.
    pub time: u64,
    /// Reading of the clock at the start of the latest tick.
    pub last_tick: u64,
    /// Reading of the clock at the latest publish attempt.
    pub last_attempt: u64,
    /// Text of the frame that was published last.
    pub published: Seq<char>,
}

impl LoopModel {
    /// Whether a tick that starts at `now` attempts to publish.
    pub open spec fn due(self, now: u64) -> bool {
        span(now, self.last_attempt) >= self.policy.publish_interval
    }

    /// Simulated time after a tick that starts at `now`.
    pub open spec fn time_after(self, now: u64) -> u64 {
        if self.time + span(now, self.last_tick) > u64::MAX {
            u64::MAX
        } else {
            (self.time + span(now, self.last_tick)) as u64
        }
    }

    /// The loop after the start of a tick at `now`.
    pub open spec fn tick(self, now: u64) -> LoopModel {
        LoopModel {
            policy: self.policy,
            time: self.time_after(now),
            last_tick: now,
            last_attempt: if self.due(now) {
                now
            } else {
                self.last_attempt
            },
            published: self.published,
        }
    }

    /// Whether `frame`, once rendered, is published.
    pub open spec fn publishes(self, frame: Seq<char>) -> bool {
        !self.policy.detect_changes || frame != self.published
    }

    /// The loop after `frame` was offered to it.
    pub open spec fn offer(self, frame: Seq<char>) -> LoopModel {
        if self.publishes(frame) {
            LoopModel { published: frame, ..self }
        } else {
            self
        }
    }

    /// Time to rest at the end of a tick that has taken `elapsed` so far.
    pub open spec fn rest(self, elapsed: u64) -> u64 {
        span(self.policy.tick, elapsed)
    }
}

/// Of two equal frames offered one after the other to a loop that detects
/// changes, the second is never published: the pair is written at most
/// once. After either offer the published text is that frame.
pub proof fn equal_frames_publish_once(m: LoopModel, frame: Seq<char>)
    requires
        m.policy.detect_changes,
    ensures
        !m.offer(frame).publishes(frame),
        m.offer(frame).published == frame,
        m.offer(frame).offer(frame) == m.offer(frame),
{
}

/// A tick in between does not make a loop that detects changes publish an
/// equal frame again.
pub proof fn equal_frames_publish_once_across_ticks(m: LoopModel, frame: Seq<char>, now: u64)
    requires
        m.policy.detect_changes,
    ensures
        !m.offer(frame).tick(now).publishes(frame),
{
}

/// Simulated time never runs backwards, whatever the clock reads.
pub proof fn simulated_time_is_monotonic(m: LoopModel, now: u64)
    ensures
        m.tick(now).time >= m.time,
        now >= m.last_tick && m.time + (now - m.last_tick) <= u64::MAX ==> m.tick(now).time
            == m.time + (now - m.last_tick),
{
}

/// A loop that publishes every frame does so whatever it published before.
pub proof fn ungated_loop_always_publishes(m: LoopModel, frame: Seq<char>)
    requires
        !m.policy.detect_changes,
    ensures
        m.publishes(frame),
        m.offer(frame).published == frame,
{
}

/// The state of a fixed-tick loop: its clock, the time of its latest
/// publish attempt, and the text it published last.
pub struct RealtimeLoop {
    policy: LoopPolicy,
    time: u64,
    last_tick: u64,
    last_attempt: u64,
    published: String,
}

impl View for RealtimeLoop {
    type V = LoopModel;

    closed spec fn view(&self) -> LoopModel {
        LoopModel {
            policy: self.policy,
            time: self.time,
            last_tick: self.last_tick,
            last_attempt: self.last_attempt,
            published: self.published@,
        }
    }
}

impl RealtimeLoop {
    /// A loop that starts when the clock reads `now`: no simulated time has
    /// passed and nothing is published.
    pub fn new(policy: LoopPolicy, now: u64) -> (r: RealtimeLoop)
        ensures
            r@ == (LoopModel {
                policy,
                time: 0,
                last_tick: now,
                last_attempt: now,
                published: Seq::<char>::empty(),
            }),
    {
        RealtimeLoop { policy, time: 0, last_tick: now, last_attempt: now, published: String::new() }
    }

    /// Starts a tick at the clock reading `now`: simulated time advances by
    /// what has passed since the tick before. Says whether a frame is to
    /// be rendered and offered in this tick.
    pub fn begin_tick(&mut self, now: u64) -> (due: bool)
        ensures
            due == old(self)@.due(now),
            final(self)@ == old(self)@.tick(now),
    {
        let passed: u64 = if now >= self.last_tick {
            now - self.last_tick
        } else {
            0
        };
        let since_attempt: u64 = if now >= self.last_attempt {
            now - self.last_attempt
        } else {
            0
        };
        let due: bool = since_attempt >= self.policy.publish_interval;
        self.time = if passed > u64::MAX - self.time {
            u64::MAX
        } else {
            self.time + passed
        };
        self.last_tick = now;
        if due {
            self.last_attempt = now;
        }
        due
    }

    /// Offers the frame rendered in this tick. Says whether it is to be
    /// published; if so, it is the published text from now on.
    pub fn offer_frame(&mut self, frame: String) -> (publish: bool)
        ensures
            publish == old(self)@.publishes(frame@),
            final(self)@ == old(self)@.offer(frame@),
    {
        if self.policy.detect_changes && frame == self.published {
            false
        } else {
            self.published = frame;
            true
        }
    }

    /// Time to rest before the next tick, when this one has taken
    /// `elapsed` so far.
    pub fn rest_after(&self, elapsed: u64) -> (pause: u64)
        ensures
            pause == self@.rest(elapsed),
    {
        if elapsed < self.policy.tick {
            self.policy.tick - elapsed
        } else {
            0
        }
    }

    /// Simulated time that has passed, in microseconds.
    pub fn time(&self) -> (t: u64)
        ensures
            t == self@.time,
    {
        self.time
    }

    /// The text that was published last.
    pub fn published(&self) -> (text: &String)
        ensures
            text@ == self@.published,
    {
        &self.published
    }

    /// The policy that the loop was made with.
    pub fn policy(&self) -> (p: LoopPolicy)
        ensures
            p == self@.policy,
    {
        self.policy
    }
}

} // verus!
