//! The bus subscriber. The connection itself, the subscribe calls and
//! the blocking receive are I/O and live with the caller; this module
//! fixes what the subscriber task decides: subscribe to every topic in
//! order and abandon the run on the first subscribe failure, then relay
//! forever, dropping a message on any receive or forward error and
//! never blocking or retrying — a dead delivery path must never stall
//! bus consumption.

use vstd::prelude::*;
use vstd::string::StringExecFns;

verus! {

/// Remembers the bus address that the subscriber task will connect to.
pub struct RedisSubscriber {
    redis_url: String,
}

impl RedisSubscriber {
    /// The bus address this subscriber was created with.
    pub closed spec fn url(&self) -> Seq<char> {
        self.redis_url@
    }

    /// Keeps the given bus address, unchanged, for the connection the
    /// caller will open.
    pub fn new(redis_url: &str) -> (r: RedisSubscriber)
        ensures
            r.url() == redis_url@,
    {
        RedisSubscriber { redis_url: String::from_str(redis_url) }
    }

    /// Hands the stored bus address back, exactly as given to `new`.
    pub fn redis_url(&self) -> (u: &str)
        ensures
            u@ == self.url(),
    {
        self.redis_url.as_str()
    }
}

/// Where the subscriber task stands in its run.
#[derive(Clone, Copy, PartialEq, Eq, Debug)]
pub enum SubscriberPhase {
    /// Still working through the topic list.
    Subscribing,
    /// All topics subscribed; relaying bus messages to the sink.
    Relaying,
    /// The run was abandoned; the task exits.
    Stopped,
}

/// What the outside world reported back for the worker's last action.
#[derive(Clone, Copy, PartialEq, Eq, Debug)]
pub enum SubscriberEvent {
    /// The requested subscribe call succeeded.
    Subscribed,
    /// The requested subscribe call failed.
    SubscribeFailed,
    /// The blocking receive yielded one message.
    Received,
    /// The blocking receive reported an error.
    ReceiveFailed,
    /// The received message was handed to the sink.
    Forwarded,
    /// The sink refused the message; it is dropped.
    ForwardFailed,
}

/// What the worker asks the outside world to do next.
#[derive(Clone, Copy, PartialEq, Eq, Debug)]
pub enum SubscriberAction {
    /// Subscribe to the topic at this position of the topic list.
    Subscribe(usize),
    /// Block on the bus for the next message.
    AwaitMessage,
    /// Push the message just received into the sink.
    Forward,
    /// End the task.
    Exit,
}

/// The subscriber task's decisions, one event at a time. The caller
/// performs each returned action against the bus and the sink and
/// reports the outcome back through `step`.
pub struct RedisSubscriberWorker {
    topics: Vec<String>,
    next_topic: usize,
    phase: SubscriberPhase,
}

impl RedisSubscriberWorker {
    /// The fixed topic list, as character sequences.
    pub closed spec fn topics(&self) -> Seq<Seq<char>> {
        self.topics@.map_values(|t: String| t@)
    }

    /// Where the worker stands.
    pub closed spec fn phase(&self) -> SubscriberPhase {
        self.phase
    }

    /// The position of the next topic to subscribe.
    pub closed spec fn next_topic(&self) -> int {
        self.next_topic as int
    }

    /// The worker never points past the end of its topic list, and
    /// only relays once the whole list is subscribed.
    pub closed spec fn wf(&self) -> bool {
        &&& self.next_topic <= self.topics@.len()
        &&& (self.phase is Relaying ==> self.next_topic == self.topics@.len())
    }

    /// A worker for the given, fixed topic list, ready to start
    /// subscribing at the first topic.
    pub fn new(topics: Vec<String>) -> (w: Self)
        ensures
            w.wf(),
            w.topics() == topics@.map_values(|t: String| t@),
            w.phase() is Subscribing,
            w.next_topic() == 0,
    {
        RedisSubscriberWorker { topics, next_topic: 0, phase: SubscriberPhase::Subscribing }
    }

    /// How many topics the worker subscribes to.
    pub fn topic_total(&self) -> (n: usize)
        ensures
            n == self.topics().len(),
    {
        self.topics.len()
    }

    /// The topic at position `i` of the list.
    pub fn topic(&self, i: usize) -> (t: &String)
        requires
            i < self.topics().len(),
        ensures
            t@ == self.topics()[i as int],
    {
        &self.topics[i]
    }

    /// Begins the run: asks for the first subscription, or — with no
    /// topic to subscribe — goes straight to relaying.
    pub fn start(&mut self) -> (a: SubscriberAction)
        requires
            old(self).wf(),
            old(self).phase() is Subscribing,
            old(self).next_topic() == 0,
        ensures
            final(self).wf(),
            final(self).topics() == old(self).topics(),
            final(self).next_topic() == 0,
            if old(self).topics().len() == 0 {
                final(self).phase() is Relaying && a == SubscriberAction::AwaitMessage
            } else {
                final(self).phase() is Subscribing && a == SubscriberAction::Subscribe(0usize)
            },
    {
        if self.topics.len() == 0 {
            self.phase = SubscriberPhase::Relaying;
            SubscriberAction::AwaitMessage
        } else {
            SubscriberAction::Subscribe(0)
        }
    }

    /// One decision of the subscriber task. While subscribing, a
    /// success moves to the next topic (or to relaying after the last
    /// one) and a failure abandons the run — fail fast. While relaying,
    /// a received message is forwarded, and every receive or forward
    /// error is swallowed: the worker just waits for the next message,
    /// without retrying, so the task never ends on its own once it
    /// relays.
    pub fn step(&mut self, ev: SubscriberEvent) -> (a: SubscriberAction)
        requires
            old(self).wf(),
            old(self).phase() is Subscribing ==> (ev is Subscribed || ev is SubscribeFailed)
                && old(self).next_topic() < old(self).topics().len(),
            old(self).phase() is Relaying ==> (ev is Received || ev is ReceiveFailed || ev
                is Forwarded || ev is ForwardFailed),
            !(old(self).phase() is Stopped),
        ensures
            final(self).wf(),
            final(self).topics() == old(self).topics(),
            old(self).phase() is Subscribing && ev is SubscribeFailed ==> (final(self).phase()
                is Stopped && a == SubscriberAction::Exit),
            old(self).phase() is Subscribing && ev is Subscribed ==> {
                &&& final(self).next_topic() == old(self).next_topic() + 1
                &&& if old(self).next_topic() + 1 < old(self).topics().len() {
                    final(self).phase() is Subscribing && a == SubscriberAction::Subscribe(
                        (old(self).next_topic() + 1) as usize,
                    )
                } else {
                    final(self).phase() is Relaying && a == SubscriberAction::AwaitMessage
                }
            },
            old(self).phase() is Relaying ==> final(self).phase() is Relaying
                && final(self).next_topic() == old(self).next_topic()
                && a != SubscriberAction::Exit,
            old(self).phase() is Relaying && ev is Received ==> a == SubscriberAction::Forward,
            old(self).phase() is Relaying && !(ev is Received) ==> a
                == SubscriberAction::AwaitMessage,
    {
        match self.phase {
            SubscriberPhase::Subscribing => {
                match ev {
                    SubscriberEvent::SubscribeFailed => {
                        self.phase = SubscriberPhase::Stopped;
                        SubscriberAction::Exit
                    },
                    _ => {
                        let total = self.topics.len();
                        assert(self.next_topic < total);
                        self.next_topic = self.next_topic + 1;
                        if self.next_topic < total {
                            SubscriberAction::Subscribe(self.next_topic)
                        } else {
                            self.phase = SubscriberPhase::Relaying;
                            SubscriberAction::AwaitMessage
                        }
                    },
                }
            },
            SubscriberPhase::Relaying => {
                match ev {
                    SubscriberEvent::Received => SubscriberAction::Forward,
                    _ => SubscriberAction::AwaitMessage,
                }
            },
            SubscriberPhase::Stopped => SubscriberAction::Exit,
        }
    }
}

} // verus!
