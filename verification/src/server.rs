//! The table of topics that the server writes to and reads from, and the
//! answers to requests for a topic that cannot be served.

use vstd::prelude::*;

verus! {

/// The topics of a running server, each with the handle through which it
/// is written (`P`), found by name. Inserting a name that is already
/// present replaces its handle.
pub struct TopicTable<P> {
    entries: Vec<(String, P)>,
}

impl<P> TopicTable<P> {
    /// No name occurs twice.
    #[verifier::type_invariant]
    spec fn names_distinct(self) -> bool {
        forall|i: int, j: int|
            0 <= i < j < self.entries@.len() ==> self.entries@[i].0@ != self.entries@[j].0@
    }

    /// The index at which a name stands.
    spec fn index_of(self, name: Seq<char>) -> int {
        choose|i: int| 0 <= i < self.entries@.len() && self.entries@[i].0@ == name
    }

    /// The table as a map from topic name to handle.
    pub closed spec fn contents(self) -> Map<Seq<char>, P> {
        Map::new(
            |name: Seq<char>|
                exists|i: int| 0 <= i < self.entries@.len() && self.entries@[i].0@ == name,
            |name: Seq<char>| self.entries@[self.index_of(name)].1,
        )
    }

    proof fn lemma_lookup(self, i: int)
        requires
            self.names_distinct(),
            0 <= i < self.entries@.len(),
        ensures
            self.contents().contains_key(self.entries@[i].0@),
            self.index_of(self.entries@[i].0@) == i,
            self.contents()[self.entries@[i].0@] == self.entries@[i].1,
    {
        let name = self.entries@[i].0@;
        assert(self.contents().dom().contains(name));
        let j = self.index_of(name);
        assert(0 <= j < self.entries@.len() && self.entries@[j].0@ == name);
        if j < i {
            assert(self.entries@[j].0@ != self.entries@[i].0@);
        } else if i < j {
            assert(self.entries@[i].0@ != self.entries@[j].0@);
        }
    }

    /// An empty table.
    pub fn new() -> (table: Self)
        ensures
            table@ == Map::<Seq<char>, P>::empty(),
    {
        let table = TopicTable { entries: Vec::new() };
        assert(table@ =~= Map::<Seq<char>, P>::empty());
        table
    }

    fn find(&self, name: &String) -> (index: Option<usize>)
        ensures
            match index {
                Some(i) => i < self.entries@.len() && self.entries@[i as int].0@ == name@,
                None => forall|i: int|
                    0 <= i < self.entries@.len() ==> self.entries@[i].0@ != name@,
            },
    {
        let mut i: usize = 0;
        while i < self.entries.len()
            invariant
                i <= self.entries@.len(),
                forall|j: int| 0 <= j < i ==> self.entries@[j].0@ != name@,
            decreases self.entries.len() - i,
        {
            if self.entries[i].0 == *name {
                return Some(i);
            }
            i = i + 1;
        }
        None
    }

    /// Whether a topic of that name is in the table.
    pub fn contains(&self, name: &String) -> (found: bool)
        ensures
            found == self@.contains_key(name@),
    {
        proof {
            use_type_invariant(self);
        }
        match self.find(name) {
            Some(i) => {
                proof {
                    self.lemma_lookup(i as int);
                }
                true
            },
            None => false,
        }
    }

    /// The handle of the topic of that name, if there is one.
    pub fn get(&self, name: &String) -> (handle: Option<&P>)
        ensures
            match handle {
                Some(p) => self@.contains_key(name@) && *p == self@[name@],
                None => !self@.contains_key(name@),
            },
    {
        proof {
            use_type_invariant(self);
        }
        match self.find(name) {
            Some(i) => {
                proof {
                    self.lemma_lookup(i as int);
                }
                Some(&self.entries[i].1)
            },
            None => None,
        }
    }

    /// Adds a topic, or replaces the handle of the topic of that name.
    pub fn insert(&mut self, name: String, handle: P)
        ensures
            final(self)@ == old(self)@.insert(name@, handle),
    {
        proof {
            use_type_invariant(&*self);
        }
        let ghost before = *self;
        let ghost key = name@;
        let found = self.find(&name);
        let mut entries: Vec<(String, P)> = Vec::new();
        std::mem::swap(&mut entries, &mut self.entries);
        match found {
            Some(i) => {
                entries.set(i, (name, handle));
                let ghost after = TopicTable { entries: entries };
                proof {
                    assert(after.names_distinct()) by {
                        assert forall|a: int, b: int| 0 <= a < b < after.entries@.len() implies
                            after.entries@[a].0@ != after.entries@[b].0@ by {
                            assert(after.entries@[a].0@ == before.entries@[a].0@);
                            assert(after.entries@[b].0@ == before.entries@[b].0@);
                        }
                    }
                    after.lemma_insert_replaced(before, i as int, key, handle);
                }
                self.entries = entries;
            },
            None => {
                entries.push((name, handle));
                let ghost after = TopicTable { entries: entries };
                proof {
                    assert(after.names_distinct()) by {
                        assert forall|a: int, b: int| 0 <= a < b < after.entries@.len() implies
                            after.entries@[a].0@ != after.entries@[b].0@ by {
                            if b < before.entries@.len() {
                                assert(after.entries@[a] == before.entries@[a]);
                                assert(after.entries@[b] == before.entries@[b]);
                            } else {
                                assert(after.entries@[a] == before.entries@[a]);
                            }
                        }
                    }
                    after.lemma_insert_pushed(before, key, handle);
                }
                self.entries = entries;
            },
        }
    }

    proof fn lemma_insert_replaced(self, before: Self, i: int, key: Seq<char>, handle: P)
        requires
            self.names_distinct(),
            before.names_distinct(),
            0 <= i < before.entries@.len(),
            before.entries@[i].0@ == key,
            self.entries@.len() == before.entries@.len(),
            self.entries@[i].0@ == key,
            self.entries@[i].1 == handle,
            forall|j: int| 0 <= j < self.entries@.len() && j != i ==> self.entries@[j] == before.entries@[j],
        ensures
            self.contents() == before.contents().insert(key, handle),
    {
        let after = before.contents().insert(key, handle);
        assert forall|name: Seq<char>| self.contents().contains_key(name) == after.contains_key(name) by {
            if self.contents().contains_key(name) {
                let j = choose|j: int| 0 <= j < self.entries@.len() && self.entries@[j].0@ == name;
                if j != i {
                    before.lemma_lookup(j);
                }
            }
            if before.contents().contains_key(name) {
                let j = choose|j: int| 0 <= j < before.entries@.len() && before.entries@[j].0@ == name;
                if j != i {
                    self.lemma_lookup(j);
                } else {
                    self.lemma_lookup(i);
                }
            }
            if name == key {
                self.lemma_lookup(i);
            }
        }
        assert forall|name: Seq<char>| #[trigger] self.contents().contains_key(name) implies
            self.contents()[name] == after[name] by {
            let j = choose|j: int| 0 <= j < self.entries@.len() && self.entries@[j].0@ == name;
            self.lemma_lookup(j);
            if j != i {
                before.lemma_lookup(j);
            }
        }
        assert(self.contents() =~= after);
    }

    proof fn lemma_insert_pushed(self, before: Self, key: Seq<char>, handle: P)
        requires
            self.names_distinct(),
            before.names_distinct(),
            self.entries@ == before.entries@.push((self.entries@.last().0, handle)),
            self.entries@.last().0@ == key,
        ensures
            self.contents() == before.contents().insert(key, handle),
    {
        let n = before.entries@.len() as int;
        let after = before.contents().insert(key, handle);
        assert forall|name: Seq<char>| self.contents().contains_key(name) == after.contains_key(name) by {
            if self.contents().contains_key(name) {
                let j = choose|j: int| 0 <= j < self.entries@.len() && self.entries@[j].0@ == name;
                if j != n {
                    assert(self.entries@[j] == before.entries@[j]);
                    before.lemma_lookup(j);
                }
            }
            if before.contents().contains_key(name) {
                let j = choose|j: int| 0 <= j < before.entries@.len() && before.entries@[j].0@ == name;
                assert(self.entries@[j] == before.entries@[j]);
                self.lemma_lookup(j);
            }
            if name == key {
                self.lemma_lookup(n);
            }
        }
        assert forall|name: Seq<char>| #[trigger] self.contents().contains_key(name) implies
            self.contents()[name] == after[name] by {
            let j = choose|j: int| 0 <= j < self.entries@.len() && self.entries@[j].0@ == name;
            self.lemma_lookup(j);
            if j != n {
                assert(self.entries@[j] == before.entries@[j]);
                before.lemma_lookup(j);
            }
        }
        assert(self.contents() =~= after);
    }
}

/// The table that inserting these topics, in order, into `table` gives.
pub open spec fn inserted_all<P>(table: Map<Seq<char>, P>, topics: Seq<(String, P)>) -> Map<
    Seq<char>,
    P,
>
    decreases topics.len(),
{
    if topics.len() == 0 {
        table
    } else {
        inserted_all(table, topics.drop_last()).insert(topics.last().0@, topics.last().1)
    }
}

impl<P> TopicTable<P> {
    /// The table of the configured topics, each with its handle, inserted in
    /// order: where a name occurs twice, the later handle is kept.
    pub fn from_topics(topics: Vec<(String, P)>) -> (table: Self)
        ensures
            table@ == inserted_all(Map::empty(), topics@),
    {
        let ghost all = topics@;
        let mut table = TopicTable::new();
        for topic in it: topics
            invariant
                it.seq() == all,
                table@ == inserted_all(Map::empty(), all.take(it.index())),
        {
            let ghost i = it.index();
            assert(all.take(i + 1).drop_last() =~= all.take(i));
            let (name, handle) = topic;
            table.insert(name, handle);
        }
        assert(all.take(all.len() as int) =~= all);
        table
    }
}

impl<P> View for TopicTable<P> {
    type V = Map<Seq<char>, P>;

    open spec fn view(&self) -> Map<Seq<char>, P> {
        self.contents()
    }
}


/// The character of a decimal digit.
pub open spec fn digit_char(d: nat) -> char {
    if d == 0 { '0' }
    else if d == 1 { '1' }
    else if d == 2 { '2' }
    else if d == 3 { '3' }
    else if d == 4 { '4' }
    else if d == 5 { '5' }
    else if d == 6 { '6' }
    else if d == 7 { '7' }
    else if d == 8 { '8' }
    else { '9' }
}

/// The decimal notation of a number, without leading zeros.
pub open spec fn decimal(n: nat) -> Seq<char>
    decreases n,
{
    if n < 10 {
        seq![digit_char(n)]
    } else {
        decimal(n / 10) + seq![digit_char(n % 10)]
    }
}

fn digit_text(d: usize) -> (text: &'static str)
    requires
        d < 10,
    ensures
        text@ == seq![digit_char(d as nat)],
{
    proof {
        reveal_strlit("0");
        reveal_strlit("1");
        reveal_strlit("2");
        reveal_strlit("3");
        reveal_strlit("4");
        reveal_strlit("5");
        reveal_strlit("6");
        reveal_strlit("7");
        reveal_strlit("8");
        reveal_strlit("9");
    }
    if d == 0 { "0" }
    else if d == 1 { "1" }
    else if d == 2 { "2" }
    else if d == 3 { "3" }
    else if d == 4 { "4" }
    else if d == 5 { "5" }
    else if d == 6 { "6" }
    else if d == 7 { "7" }
    else if d == 8 { "8" }
    else { "9" }
}

/// Writes a number in decimal.
pub fn decimal_string(n: usize) -> (text: String)
    ensures
        text@ == decimal(n as nat),
    decreases n,
{
    if n < 10 {
        digit_text(n).to_owned()
    } else {
        let mut text = decimal_string(n / 10);
        text.append(digit_text(n % 10));
        text
    }
}

/// An HTTP answer to a request that cannot be served.
#[derive(Debug)]
pub struct HttpReply {
    pub status: u16,
    pub body: String,
}

pub open spec fn not_found_text(topic: Seq<char>) -> Seq<char> {
    "topic with name "@ + topic + " does not exist"@
}

pub open spec fn subscribe_failed_text(group: nat) -> Seq<char> {
    "unable to subscribe to topic with group "@ + decimal(group)
}

/// The answer to a request for a topic that the server does not have:
/// status 404.
pub fn topic_not_found(topic: &String) -> (reply: HttpReply)
    ensures
        reply.status == 404,
        reply.body@ == not_found_text(topic@),
{
    let mut body = "topic with name ".to_owned();
    body.append(topic.as_str());
    body.append(" does not exist");
    HttpReply { status: 404, body }
}

/// The answer to a consumer whose group could not subscribe to the
/// topic: status 500.
pub fn subscribe_failed(group: usize) -> (reply: HttpReply)
    ensures
        reply.status == 500,
        reply.body@ == subscribe_failed_text(group as nat),
{
    let mut body = "unable to subscribe to topic with group ".to_owned();
    let number = decimal_string(group);
    body.append(number.as_str());
    HttpReply { status: 500, body }
}

impl<P> TopicTable<P> {
    /// The handle of a requested topic, or the 404 answer where there is no
    /// topic of that name.
    pub fn route(&self, topic: &String) -> (routed: Result<&P, HttpReply>)
        ensures
            match routed {
                Ok(p) => self@.contains_key(topic@) && *p == self@[topic@],
                Err(reply) => !self@.contains_key(topic@) && reply.status == 404
                    && reply.body@ == not_found_text(topic@),
            },
    {
        match self.get(topic) {
            Some(p) => Ok(p),
            None => Err(topic_not_found(topic)),
        }
    }
}


/// Reading a topic back after inserting it gives the handle just inserted,
/// and inserting leaves every other topic as it was.
pub proof fn lookup_after_insert<P>(
    before: Map<Seq<char>, P>,
    name: Seq<char>,
    handle: P,
    other: Seq<char>,
)
    requires
        other != name,
    ensures
        before.insert(name, handle).contains_key(name),
        before.insert(name, handle)[name] == handle,
        before.insert(name, handle).contains_key(other) == before.contains_key(other),
        before.contains_key(other) ==> before.insert(name, handle)[other] == before[other],
{
}

/// Of two topics inserted under one name, the later one is kept.
pub proof fn later_insert_wins<P>(before: Map<Seq<char>, P>, name: Seq<char>, first: P, second: P)
    ensures
        before.insert(name, first).insert(name, second) == before.insert(name, second),
{
    assert(before.insert(name, first).insert(name, second) =~= before.insert(name, second));
}


/// In a table built from a list of topics, a name is found with the handle
/// of its last occurrence in the list; a name that the list does not hold
/// is found as it was before.
pub proof fn configured_topic_lookup<P>(
    table: Map<Seq<char>, P>,
    topics: Seq<(String, P)>,
    name: Seq<char>,
)
    ensures
        (forall|j: int| 0 <= j < topics.len() ==> topics[j].0@ != name) ==> (inserted_all(
            table,
            topics,
        ).contains_key(name) == table.contains_key(name) && (table.contains_key(name)
            ==> inserted_all(table, topics)[name] == table[name])),
        forall|i: int|
            0 <= i < topics.len() && topics[i].0@ == name && (forall|j: int|
                i < j < topics.len() ==> topics[j].0@ != name) ==> inserted_all(
                table,
                topics,
            ).contains_key(name) && inserted_all(table, topics)[name] == topics[i].1,
    decreases topics.len(),
{
    if topics.len() > 0 {
        let rest = topics.drop_last();
        configured_topic_lookup(table, rest, name);
        assert forall|i: int|
            0 <= i < topics.len() && topics[i].0@ == name && (forall|j: int|
                i < j < topics.len() ==> topics[j].0@ != name) implies inserted_all(
            table,
            topics,
        ).contains_key(name) && inserted_all(table, topics)[name] == topics[i].1 by {
            if i < topics.len() - 1 {
                assert(rest[i] == topics[i]);
                assert forall|j: int| i < j < rest.len() implies rest[j].0@ != name by {
                    assert(rest[j] == topics[j]);
                }
                assert(topics[topics.len() - 1].0@ != name);
            }
        }
        if forall|j: int| 0 <= j < topics.len() ==> topics[j].0@ != name {
            assert forall|j: int| 0 <= j < rest.len() implies rest[j].0@ != name by {
                assert(rest[j] == topics[j]);
            }
            assert(topics[topics.len() - 1].0@ != name);
        }
    }
}


/// The number that a string of decimal digits stands for.
pub open spec fn digits_value(digits: Seq<char>) -> int
    decreases digits.len(),
{
    if digits.len() == 0 {
        0
    } else {
        digits_value(digits.drop_last()) * 10 + (digits.last() as int - 48)
    }
}

/// `decimal` writes a number as it is read back: only decimal digits, at
/// least one, no leading zero, and standing for the number itself.
pub proof fn decimal_reads_back(n: nat)
    ensures
        decimal(n).len() >= 1,
        forall|i: int| 0 <= i < decimal(n).len() ==> '0' <= #[trigger] decimal(n)[i] <= '9',
        digits_value(decimal(n)) == n,
        n >= 10 ==> decimal(n)[0] != '0',
    decreases n,
{
    let d = n % 10;
    assert(digit_char(d) as int - 48 == d) by {
        assert('0' as int == 48);
        assert('9' as int == 57);
    }
    if n < 10 {
        assert(decimal(n).drop_last() =~= Seq::<char>::empty());
        assert(digits_value(Seq::<char>::empty()) == 0);
        assert(decimal(n).last() == digit_char(d));
    } else {
        decimal_reads_back(n / 10);
        let high = decimal(n / 10);
        let all = high + seq![digit_char(n % 10)];
        assert(all.drop_last() =~= high);
        assert(forall|i: int| 0 <= i < high.len() ==> all[i] == high[i]);
        assert(all[0] == high[0]);
        assert(decimal(n) == all);
        assert(all.last() == digit_char(d));
        assert(digits_value(all) == digits_value(high) * 10 + d);
        assert(n == (n / 10) * 10 + d);
    }
}

} // verus!
