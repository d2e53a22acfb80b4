use vstd::prelude::*;

verus! {

/// One chat message: who wrote it and what it says. Immutable once created;
/// messages are only appended to the log or evicted from its front.
pub struct Message {
    pub author: String,
    pub content: String,
}

impl Clone for Message {
    fn clone(&self) -> (m: Self)
        ensures
            m == *self,
    {
        Message { author: self.author.clone(), content: self.content.clone() }
    }
}

/// An ordered, append-only sequence of messages. The core never reorders it:
/// `append` adds at the end and `evict_front` removes a contiguous prefix,
/// oldest first.
pub struct MessageLog {
    msgs: Vec<Message>,
}

impl View for MessageLog {
    type V = Seq<Message>;

    closed spec fn view(&self) -> Seq<Message> {
        self.msgs@
    }
}

impl MessageLog {
    /// An empty log.
    pub fn new() -> (log: MessageLog)
        ensures
            log@ == Seq::<Message>::empty(),
    {
        MessageLog { msgs: Vec::new() }
    }

    /// The number of retained messages.
    pub fn len(&self) -> (n: usize)
        ensures
            n == self@.len(),
    {
        self.msgs.len()
    }

    /// The message at position `i`, oldest first.
    pub fn get(&self, i: usize) -> (m: &Message)
        requires
            i < self@.len(),
        ensures
            *m == self@[i as int],
    {
        &self.msgs[i]
    }

    /// Adds a message at the end; arrival order is preserved.
    pub fn append(&mut self, m: Message)
        ensures
            final(self)@ == old(self)@.push(m),
    {
        self.msgs.push(m);
    }

    /// A point-in-time copy of the whole log, for computations that must not
    /// hold the log itself.
    pub fn snapshot(&self) -> (copy: Vec<Message>)
        ensures
            copy@ == self@,
    {
        let mut copy: Vec<Message> = Vec::new();
        let mut i: usize = 0;
        while i < self.msgs.len()
            invariant
                i <= self.msgs.len(),
                copy@ == self@.subrange(0, i as int),
            decreases self.msgs.len() - i,
        {
            copy.push(self.msgs[i].clone());
            assert(self@.subrange(0, i as int).push(self@[i as int])
                =~= self@.subrange(0, i + 1 as int));
            i = i + 1;
        }
        assert(self@.subrange(0, self@.len() as int) =~= self@);
        copy
    }

    /// Removes the `count` oldest messages; the rest keep their order.
    pub fn evict_front(&mut self, count: usize)
        requires
            count <= old(self)@.len(),
        ensures
            final(self)@ == old(self)@.subrange(count as int, old(self)@.len() as int),
    {
        let tail = self.msgs.split_off(count);
        self.msgs = tail;
    }
}

} // verus!
