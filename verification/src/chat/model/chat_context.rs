//! The table of live chat connections shared by every chat session: for each
//! room, the connections listening to it, each with the address of the
//! session that serves it.

use vstd::prelude::*;
use std::collections::HashMap;
use crate::assoc::{assoc_map, has_key, keys_distinct, lemma_assoc_empty, lemma_assoc_index,
    lemma_assoc_push, lemma_assoc_remove, lemma_assoc_update};

verus! {

/// The rooms of a table, each read as its name and the map of its connections.
pub open spec fn room_entries<A>(rooms: Seq<(String, HashMap<u128, A>)>) -> Seq<(Seq<char>, Map<u128, A>)> {
    rooms.map_values(|r: (String, HashMap<u128, A>)| (r.0@, r.1@))
}

/// The table after connection `key` of `room` registered with address `addr`:
/// the room is created when missing, and a connection already registered
/// under `key` gets the new address.
pub open spec fn with_connection<A>(
    m: Map<Seq<char>, Map<u128, A>>,
    room: Seq<char>,
    key: u128,
    addr: A,
) -> Map<Seq<char>, Map<u128, A>> {
    let connections = if m.dom().contains(room) { m[room] } else { Map::empty() };
    m.insert(room, connections.insert(key, addr))
}

/// The table after connection `key` of `room` went away: a room left without
/// connections is dropped.
pub open spec fn without_connection<A>(
    m: Map<Seq<char>, Map<u128, A>>,
    room: Seq<char>,
    key: u128,
) -> Map<Seq<char>, Map<u128, A>> {
    let connections = m[room].remove(key);
    if connections.len() == 0 {
        m.remove(room)
    } else {
        m.insert(room, connections)
    }
}

/// Every room of the table has a finite, non-empty set of connections.
pub open spec fn rooms_nonempty<A>(m: Map<Seq<char>, Map<u128, A>>) -> bool {
    forall|room: Seq<char>| #[trigger]
        m.dom().contains(room) ==> m[room].dom().finite() && m[room].len() > 0
}

/// Registering a connection and unregistering it again gives back the table
/// as it was, when the connection was not registered before.
pub proof fn lemma_leave_undoes_join<A>(
    m: Map<Seq<char>, Map<u128, A>>,
    room: Seq<char>,
    key: u128,
    addr: A,
)
    requires
        rooms_nonempty(m),
        !(m.dom().contains(room) && m[room].dom().contains(key)),
    ensures
        without_connection(with_connection(m, room, key, addr), room, key) == m,
{
    let joined = with_connection(m, room, key, addr);
    if m.dom().contains(room) {
        assert(joined[room].remove(key) =~= m[room]);
        assert(joined.insert(room, m[room]) =~= m);
    } else {
        assert(joined[room].remove(key) =~= Map::<u128, A>::empty());
        assert(joined.remove(room) =~= m);
    }
}

/// After a connection registers, looking it up gives the address it
/// registered with, and the other rooms are as they were.
pub proof fn lemma_join_then_lookup<A>(
    m: Map<Seq<char>, Map<u128, A>>,
    room: Seq<char>,
    key: u128,
    addr: A,
)
    ensures
        with_connection(m, room, key, addr).dom().contains(room),
        with_connection(m, room, key, addr)[room].dom().contains(key),
        with_connection(m, room, key, addr)[room][key] == addr,
        forall|other: Seq<char>|
            other != room ==> #[trigger] with_connection(m, room, key, addr).dom().contains(other)
                == m.dom().contains(other) && (m.dom().contains(other) ==> with_connection(
                m,
                room,
                key,
                addr,
            )[other] == m[other]),
{
}

/// Registering and unregistering connections never leaves an empty room in
/// the table.
pub proof fn lemma_no_room_left_empty<A>(
    m: Map<Seq<char>, Map<u128, A>>,
    room: Seq<char>,
    key: u128,
    addr: A,
)
    requires
        rooms_nonempty(m),
    ensures
        rooms_nonempty(with_connection(m, room, key, addr)),
        m.dom().contains(room) ==> rooms_nonempty(without_connection(m, room, key)),
{
    let joined = with_connection(m, room, key, addr);
    let before = if m.dom().contains(room) { m[room] } else { Map::<u128, A>::empty() };
    assert(joined[room] == before.insert(key, addr));
    assert(before.insert(key, addr).dom().contains(key));
    assert forall|r: Seq<char>| #[trigger] joined.dom().contains(r) implies joined[r].dom().finite()
        && joined[r].len() > 0 by {
        if r == room {
            let s = before.insert(key, addr).dom();
            assert(s.contains(key));
            vstd::set_lib::lemma_set_empty_equivalency_len(s);
        }
    }
    if m.dom().contains(room) {
        let left = m[room].remove(key);
        assert(left.dom() =~= m[room].dom().remove(key));
    }
}

/// The rooms are well formed: names are distinct and no room is empty.
pub open spec fn rooms_wf<A>(rooms: Seq<(String, HashMap<u128, A>)>) -> bool {
    &&& keys_distinct(room_entries(rooms))
    &&& forall|i: int| 0 <= i < rooms.len() ==> #[trigger] rooms[i].1@.len() > 0
}

/// Position of `room` among `rooms`, if it is there.
fn find_room<A>(rooms: &Vec<(String, HashMap<u128, A>)>, room: &String) -> (found: Option<usize>)
    requires
        rooms_wf(rooms@),
    ensures
        match found {
            Some(i) => i < rooms@.len() && rooms@[i as int].0@ == room@,
            None => !assoc_map(room_entries(rooms@)).dom().contains(room@),
        },
{
    let mut i: usize = 0;
    while i < rooms.len()
        invariant
            i <= rooms@.len(),
            forall|j: int| 0 <= j < i ==> rooms@[j].0@ != room@,
        decreases rooms@.len() - i,
    {
        if rooms[i].0 == *room {
            return Some(i);
        }
        i = i + 1;
    }
    proof {
        let e = room_entries(rooms@);
        if has_key(e, room@) {
            let j = choose|j: int| 0 <= j < e.len() && #[trigger] e[j].0 == room@;
            assert(e[j].0 == rooms@[j].0@);
        }
    }
    None
}

/// The connections of the room at position `i`.
proof fn lemma_room_at<A>(rooms: Seq<(String, HashMap<u128, A>)>, i: int)
    requires
        rooms_wf(rooms),
        0 <= i < rooms.len(),
    ensures
        assoc_map(room_entries(rooms)).dom().contains(rooms[i].0@),
        assoc_map(room_entries(rooms))[rooms[i].0@] == rooms[i].1@,
        rooms[i].1@.dom().finite(),
        rooms[i].1@.len() > 0,
{
    broadcast use vstd::std_specs::hash::group_hash_axioms;

    let e = room_entries(rooms);
    assert(e[i] == (rooms[i].0@, rooms[i].1@));
    lemma_assoc_index(e, i);
}

/// The rooms of a well-formed list have finite, non-empty connection maps.
proof fn lemma_rooms_nonempty<A>(rooms: Seq<(String, HashMap<u128, A>)>)
    requires
        rooms_wf(rooms),
    ensures
        rooms_nonempty(assoc_map(room_entries(rooms))),
{
    let e = room_entries(rooms);
    let m = assoc_map(e);
    assert forall|room: Seq<char>| #[trigger] m.dom().contains(room) implies m[room].dom().finite()
        && m[room].len() > 0 by {
        let i = choose|i: int| 0 <= i < e.len() && #[trigger] e[i].0 == room;
        lemma_room_at(rooms, i);
    }
}

/// Live chat connections, grouped by room: a list of rooms with distinct
/// names, each with a map from connection key to address, none of them empty.
pub struct ChatContext<A> {
    rooms: Vec<(String, HashMap<u128, A>)>,
}

impl<A> View for ChatContext<A> {
    type V = Map<Seq<char>, Map<u128, A>>;

    closed spec fn view(&self) -> Map<Seq<char>, Map<u128, A>> {
        assoc_map(room_entries(self.rooms@))
    }
}

impl<A> ChatContext<A> {
    #[verifier::type_invariant]
    spec fn wf(&self) -> bool {
        rooms_wf(self.rooms@)
    }

    /// An empty table.
    pub fn new() -> (c: Self)
        ensures
            c@ == Map::<Seq<char>, Map<u128, A>>::empty(),
            rooms_nonempty(c@),
    {
        let c = ChatContext { rooms: Vec::new() };
        proof {
            lemma_assoc_empty(room_entries(c.rooms@));
        }
        c
    }

    /// Whether some connection listens to `room`.
    pub fn contains_room(&self, room: &String) -> (b: bool)
        ensures
            b == self@.dom().contains(room@),
            rooms_nonempty(self@),
    {
        proof {
            use_type_invariant(self);
            lemma_rooms_nonempty(self.rooms@);
        }
        match find_room(&self.rooms, room) {
            Some(i) => {
                proof {
                    lemma_room_at(self.rooms@, i as int);
                }
                true
            },
            None => false,
        }
    }

    /// Number of connections listening to `room`.
    pub fn connection_count(&self, room: &String) -> (n: usize)
        requires
            self@.dom().contains(room@),
        ensures
            n == self@[room@].len(),
    {
        broadcast use vstd::std_specs::hash::group_hash_axioms;

        proof {
            use_type_invariant(self);
        }
        let i = find_room(&self.rooms, room).unwrap();
        proof {
            lemma_room_at(self.rooms@, i as int);
        }
        self.rooms[i].1.len()
    }

    /// The connections of `room` other than `connection`, each once.
    pub fn other_connections(&self, room: &String, connection: u128) -> (others: Vec<u128>)
        requires
            self@.dom().contains(room@),
        ensures
            others@.no_duplicates(),
            forall|k: u128|
                #[trigger] others@.contains(k) <==> (self@[room@].dom().contains(k) && k != connection),
    {
        broadcast use vstd::std_specs::hash::group_hash_axioms;

        proof {
            use_type_invariant(self);
        }
        let i = find_room(&self.rooms, room).unwrap();
        proof {
            lemma_room_at(self.rooms@, i as int);
        }
        let conns = &self.rooms[i].1;
        let ghost ks: Seq<u128> = vstd::std_specs::iter::IteratorSpec::remaining(&vstd::std_specs::hash::spec_keys_iter(conns)).map_values(|k: &u128| *k);
        let ghost mut n: int = 0;
        proof {
            assert(ks.to_set() =~= conns@.dom()) by {
                assert forall|k: u128| ks.to_set().contains(k) <==> vstd::std_specs::iter::IteratorSpec::remaining(&vstd::std_specs::hash::spec_keys_iter(conns)).unref().to_set().contains(k) by {
                    let r = vstd::std_specs::iter::IteratorSpec::remaining(&vstd::std_specs::hash::spec_keys_iter(conns));
                    if ks.contains(k) {
                        let b = choose|b: int| 0 <= b < ks.len() && ks[b] == k;
                        assert(r.unref()[b] == k);
                    }
                    if r.unref().contains(k) {
                        let b = choose|b: int| 0 <= b < r.unref().len() && r.unref()[b] == k;
                        assert(ks[b] == k);
                    }
                }
            }
        }
        let mut others: Vec<u128> = Vec::new();
        for k in it: conns.keys()
            invariant
                ks.len() == it.seq().len(),
                forall|b: int| 0 <= b < ks.len() ==> #[trigger] ks[b] == *it.seq()[b],
                ks.to_set() == conns@.dom(),
                ks.no_duplicates(),
                n == it.index(),
                others@.no_duplicates(),
                forall|a: int|
                    0 <= a < others@.len() ==> others@[a] != connection && exists|b: int|
                        0 <= b < n && #[trigger] ks[b] == others@[a],
                forall|b: int| 0 <= b < n && ks[b] != connection ==> others@.contains(#[trigger] ks[b]),
        {
            let key = *k;
            proof {
                assert(ks[n] == key);
            }
            if key != connection {
                proof {
                    assert forall|a: int| 0 <= a < others@.len() implies others@[a] != key by {
                        let b = choose|b: int| 0 <= b < n && #[trigger] ks[b] == others@[a];
                        assert(ks[b] != ks[n]);
                    }
                }
                let ghost prev = others@;
                others.push(key);
                proof {
                    assert forall|b: int| 0 <= b < n + 1 && ks[b] != connection implies others@.contains(#[trigger] ks[b]) by {
                        if b == n {
                            assert(others@[others@.len() - 1] == key);
                        } else {
                            assert(prev.contains(ks[b]));
                            let a = choose|a: int| 0 <= a < prev.len() && prev[a] == ks[b];
                            assert(others@[a] == prev[a]);
                        }
                    }
                    assert forall|a: int| 0 <= a < others@.len() implies others@[a] != connection && exists|b: int|
                        0 <= b < n + 1 && #[trigger] ks[b] == others@[a] by {
                        if a == others@.len() - 1 {
                            assert(ks[n] == others@[a]);
                        } else {
                            assert(others@[a] == prev[a]);
                        }
                    }
                }
            }
            proof {
                n = n + 1;
            }
        }
        proof {
            assert(n == ks.len());
            let m = conns@;
            assert forall|k: u128| #[trigger] others@.contains(k) <==> (m.dom().contains(k) && k != connection) by {
                if others@.contains(k) {
                    let a = choose|a: int| 0 <= a < others@.len() && others@[a] == k;
                    let b = choose|b: int| 0 <= b < n && #[trigger] ks[b] == others@[a];
                    assert(ks.to_set().contains(ks[b]));
                }
                if m.dom().contains(k) && k != connection {
                    assert(ks.to_set().contains(k));
                    let b = choose|b: int| 0 <= b < ks.len() && ks[b] == k;
                    assert(others@.contains(ks[b]));
                }
            }
        }
        others
    }

    /// The address registered for connection `key` of `room`.
    pub fn address(&self, room: &String, key: u128) -> (addr: Option<&A>)
        ensures
            addr == (if self@.dom().contains(room@) && self@[room@].dom().contains(key) {
                Some(&self@[room@][key])
            } else {
                None
            }),
    {
        broadcast use vstd::std_specs::hash::group_hash_axioms;

        proof {
            use_type_invariant(self);
        }
        match find_room(&self.rooms, room) {
            None => None,
            Some(i) => {
                proof {
                    lemma_room_at(self.rooms@, i as int);
                }
                self.rooms[i].1.get(&key)
            },
        }
    }

    /// Registers connection `key` of `room` with address `addr`.
    pub fn insert_connection(&mut self, room: String, key: u128, addr: A)
        ensures
            final(self)@ == with_connection(old(self)@, room@, key, addr),
            rooms_nonempty(final(self)@),
    {
        broadcast use vstd::std_specs::hash::group_hash_axioms;

        proof {
            use_type_invariant(&*self);
        }
        let mut rooms: Vec<(String, HashMap<u128, A>)> = Vec::new();
        std::mem::swap(&mut rooms, &mut self.rooms);
        let ghost old_rooms = rooms@;
        let ghost e = room_entries(old_rooms);
        match find_room(&rooms, &room) {
            None => {
                let mut conns: HashMap<u128, A> = HashMap::new();
                conns.insert(key, addr);
                let ghost m = conns@;
                proof {
                    assert(m.dom().contains(key));
                    assert(m.len() > 0);
                }
                rooms.push((room, conns));
                proof {
                    assert(!has_key(e, room@));
                    lemma_assoc_push(e, room@, m);
                    assert(room_entries(rooms@) =~= e.push((room@, m)));
                    assert forall|i: int| 0 <= i < rooms@.len() implies #[trigger] rooms@[i].1@.len() > 0 by {
                        if i < old_rooms.len() {
                            assert(rooms@[i] == old_rooms[i]);
                        }
                    }
                }
            },
            Some(i) => {
                proof {
                    lemma_room_at(old_rooms, i as int);
                }
                let (name, mut conns) = rooms.remove(i);
                let ghost old_conns = conns@;
                conns.insert(key, addr);
                let ghost m = conns@;
                proof {
                    assert(m.dom() =~= old_conns.dom().insert(key));
                    assert(m.dom().contains(key));
                    assert(m.len() > 0);
                }
                rooms.insert(i, (name, conns));
                proof {
                    assert(rooms@ =~= old_rooms.update(i as int, (name, conns)));
                    assert(room_entries(rooms@) =~= e.update(i as int, (e[i as int].0, m)));
                    lemma_assoc_update(e, i as int, m);
                    assert forall|a: int| 0 <= a < rooms@.len() implies #[trigger] rooms@[a].1@.len() > 0 by {
                        if a != i {
                            assert(rooms@[a] == old_rooms[a]);
                        }
                    }
                }
            },
        }
        proof {
            lemma_rooms_nonempty(rooms@);
        }
        self.rooms = rooms;
    }

    /// Unregisters connection `key` of `room`, dropping the room when it has
    /// no connection left.
    pub fn remove_connection(&mut self, room: &String, key: u128)
        requires
            old(self)@.dom().contains(room@),
        ensures
            final(self)@ == without_connection(old(self)@, room@, key),
            rooms_nonempty(final(self)@),
    {
        broadcast use vstd::std_specs::hash::group_hash_axioms;

        proof {
            use_type_invariant(&*self);
        }
        let mut rooms: Vec<(String, HashMap<u128, A>)> = Vec::new();
        std::mem::swap(&mut rooms, &mut self.rooms);
        let ghost old_rooms = rooms@;
        let ghost e = room_entries(old_rooms);
        let i = find_room(&rooms, room).unwrap();
        proof {
            lemma_room_at(old_rooms, i as int);
        }
        let (name, mut conns) = rooms.remove(i);
        conns.remove(&key);
        let ghost m = conns@;
        if conns.len() == 0 {
            proof {
                assert(rooms@ =~= old_rooms.remove(i as int));
                assert(room_entries(rooms@) =~= e.remove(i as int));
                lemma_assoc_remove(e, i as int);
                assert forall|a: int| 0 <= a < rooms@.len() implies #[trigger] rooms@[a].1@.len() > 0 by {
                    assert(rooms@[a] == old_rooms[if a < i { a } else { a + 1 }]);
                }
            }
        } else {
            rooms.insert(i, (name, conns));
            proof {
                assert(rooms@ =~= old_rooms.update(i as int, (name, conns)));
                assert(room_entries(rooms@) =~= e.update(i as int, (e[i as int].0, m)));
                lemma_assoc_update(e, i as int, m);
                assert forall|a: int| 0 <= a < rooms@.len() implies #[trigger] rooms@[a].1@.len() > 0 by {
                    if a != i {
                        assert(rooms@[a] == old_rooms[a]);
                    }
                }
            }
        }
        proof {
            lemma_rooms_nonempty(rooms@);
        }
        self.rooms = rooms;
    }
}

} // verus!
