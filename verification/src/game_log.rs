//! The message log: the most recent messages, each with its colour and the
//! turn it was given on, oldest first.
use vstd::prelude::*;

verus! {

/// The colour of an ordinary message.
pub const DEFAULT_COLOR: [u8; 3] = [255, 255, 255];

/// One message of the log.
#[derive(Debug, Clone)]
pub struct LogEntry {
    pub text: String,
    pub color: [u8; 3],
    pub turn: u64,
}

/// A log keeping at most `capacity` messages.
#[derive(Debug, Clone)]
pub struct GameLog {
    entries: Vec<LogEntry>,
    capacity: usize,
}

/// A message as the log sees it: its text, colour and turn.
pub type Message = (Seq<char>, [u8; 3], u64);

/// The messages of `entries`.
pub open spec fn messages_of(entries: Seq<LogEntry>) -> Seq<Message> {
    entries.map_values(|e: LogEntry| (e.text@, e.color, e.turn))
}

/// The messages kept after `m` is added to `ms` in a log of `capacity`:
/// it goes last, and the oldest goes when there are more than `capacity`.
pub open spec fn after_add(ms: Seq<Message>, m: Message, capacity: nat) -> Seq<Message> {
    let all = ms.push(m);
    if all.len() > capacity { all.subrange(all.len() - capacity, all.len() as int) } else { all }
}

impl GameLog {
    /// The messages in the log, oldest first.
    pub closed spec fn messages(&self) -> Seq<Message> {
        messages_of(self.entries@)
    }

    /// The most messages the log keeps.
    pub closed spec fn cap(&self) -> nat {
        self.capacity as nat
    }

    /// The log holds at most its capacity.
    pub closed spec fn wf(&self) -> bool {
        self.entries@.len() <= self.capacity
    }

    /// An empty log keeping at most `capacity` messages.
    pub fn new(capacity: usize) -> (r: GameLog)
        ensures
            r.wf(),
            r.messages() == Seq::<Message>::empty(),
            r.cap() == capacity,
    {
        let r = GameLog { entries: Vec::new(), capacity };
        assert(r.messages() =~= Seq::<Message>::empty());
        r
    }

    /// The number of messages held.
    pub fn len(&self) -> (r: usize)
        ensures
            r == self.messages().len(),
    {
        self.entries.len()
    }

    /// The text of the message at `i`, oldest first.
    pub fn text_at(&self, i: usize) -> (r: &String)
        requires
            i < self.messages().len(),
        ensures
            r@ == self.messages()[i as int].0,
    {
        &self.entries[i]
            .text
    }

    /// Adds a message in the ordinary colour.
    pub fn add(&mut self, msg: &str, turn: u64)
        requires
            old(self).wf(),
        ensures
            final(self).wf(),
            final(self).cap() == old(self).cap(),
            final(self).messages() == after_add(old(self).messages(), (msg@, DEFAULT_COLOR, turn), old(self).cap()),
    {
        self.add_colored(msg, DEFAULT_COLOR, turn);
    }

    /// Adds a message in `color`.
    pub fn add_colored(&mut self, msg: &str, color: [u8; 3], turn: u64)
        requires
            old(self).wf(),
        ensures
            final(self).wf(),
            final(self).cap() == old(self).cap(),
            final(self).messages() == after_add(old(self).messages(), (msg@, color, turn), old(self).cap()),
    {
        let ghost ms = self.messages();
        self.entries.push(LogEntry { text: msg.to_string(), color, turn });
        assert(messages_of(self.entries@) =~= ms.push((msg@, color, turn)));
        if self.entries.len() > self.capacity {
            let ghost before = self.entries@;
            self.entries.remove(0);
            assert(messages_of(self.entries@) =~= ms.push((msg@, color, turn)).subrange(
                ms.len() + 1 - self.capacity, (ms.len() + 1) as int));
        }
    }
}

/// A log never holds more than its capacity, and a message just added is
/// the newest one (when the log keeps any).
pub proof fn added_message_is_newest(ms: Seq<Message>, m: Message, capacity: nat)
    requires
        ms.len() <= capacity,
    ensures
        after_add(ms, m, capacity).len() <= capacity || capacity == 0,
        after_add(ms, m, capacity).len() <= ms.len() + 1,
        capacity > 0 ==> after_add(ms, m, capacity).last() == m,
{
}

} // verus!
