//! Peer identities and the origin of a connection.
use vstd::prelude::*;

verus! {

/// Origin of how a connection was established.
#[derive(Clone, Copy, Debug, PartialEq, Eq, Hash, Structural)]
pub enum ConnectionOrigin {
    /// `Inbound` indicates that we are the listener for this connection.
    Inbound,
    /// `Outbound` indicates that we are the dialer for this connection.
    Outbound,
}

/// The short lower-case name of an origin.
pub open spec fn origin_name(origin: ConnectionOrigin) -> Seq<char> {
    match origin {
        ConnectionOrigin::Inbound => "inbound"@,
        ConnectionOrigin::Outbound => "outbound"@,
    }
}

/// The qualified name of an origin, as it is shown in debugging output.
pub open spec fn origin_debug_name(origin: ConnectionOrigin) -> Seq<char> {
    match origin {
        ConnectionOrigin::Inbound => "ConnectionOrigin::Inbound"@,
        ConnectionOrigin::Outbound => "ConnectionOrigin::Outbound"@,
    }
}

impl ConnectionOrigin {
    pub fn as_str(self) -> (s: &'static str)
        ensures
            s@ == origin_name(self),
    {
        match self {
            ConnectionOrigin::Inbound => "inbound",
            ConnectionOrigin::Outbound => "outbound",
        }
    }

    /// The text shown for this origin in debugging output.
    pub fn debug_str(self) -> (s: &'static str)
        ensures
            s@ == origin_debug_name(self),
    {
        match self {
            ConnectionOrigin::Inbound => "ConnectionOrigin::Inbound",
            ConnectionOrigin::Outbound => "ConnectionOrigin::Outbound",
        }
    }

    /// The display text of this origin: its short name.
    pub fn to_string(self) -> (s: String)
        ensures
            s@ == origin_name(self),
    {
        self.as_str().to_owned()
    }
}

} // verus!

verus! {

/// Length in bytes of an ed25519 public key.
pub const PUBLIC_KEY_LENGTH: usize = 32;

/// The identity of a peer: the bytes of its ed25519 public key.
///
/// Peers are compared and ordered by these bytes.
#[derive(Clone, Copy, Debug, PartialEq, Eq, Hash, PartialOrd, Ord)]
pub struct PeerId(pub [u8; 32]);

/// `a` comes before `b` in lexicographic byte order.
pub open spec fn bytes_lt(a: Seq<u8>, b: Seq<u8>) -> bool {
    exists|i: int|
        0 <= i < a.len() && i < b.len() && a.take(i) == b.take(i) && a[i] < b[i]
}

impl PeerId {
    /// The key bytes of this peer id.
    pub open spec fn key(self) -> Seq<u8> {
        self.0@
    }

    /// Whether two peer ids hold the same key bytes.
    pub fn same_as(&self, other: &PeerId) -> (r: bool)
        ensures
            r == (self.key() == other.key()),
            r == (*self == *other),
    {
        let mut i: usize = 0;
        while i < PUBLIC_KEY_LENGTH
            invariant
                i <= PUBLIC_KEY_LENGTH,
                self.key().len() == 32,
                other.key().len() == 32,
                forall|j: int| 0 <= j < i ==> self.key()[j] == other.key()[j],
            decreases PUBLIC_KEY_LENGTH - i,
        {
            if self.0[i] != other.0[i] {
                return false;
            }
            i = i + 1;
        }
        assert(self.key() =~= other.key());
        assert(self.0 =~= other.0);
        true
    }

    /// `self` orders before `other`.
    pub open spec fn spec_lt(self, other: PeerId) -> bool {
        bytes_lt(self.key(), other.key())
    }

    /// Whether this peer id orders strictly before `other` (byte-wise comparison).
    pub fn less_than(&self, other: &PeerId) -> (r: bool)
        ensures
            r == self.spec_lt(*other),
    {
        let mut i: usize = 0;
        while i < PUBLIC_KEY_LENGTH
            invariant
                i <= PUBLIC_KEY_LENGTH,
                self.key().len() == 32,
                other.key().len() == 32,
                self.key().take(i as int) == other.key().take(i as int),
            decreases PUBLIC_KEY_LENGTH - i,
        {
            let a = self.0[i];
            let b = other.0[i];
            if a < b {
                assert(self.key()[i as int] == a);
                return true;
            }
            if a > b {
                proof {
                    let x = self.key();
                    let y = other.key();
                    assert forall|j: int|
                        0 <= j < x.len() && j < y.len() && x.take(j) == y.take(j)
                        implies !(x[j] < y[j]) by {
                        if j < i {
                            assert(x[j] == x.take(i as int)[j]);
                            assert(y[j] == y.take(i as int)[j]);
                        } else if j > i {
                            assert(x[i as int] == x.take(j)[i as int]);
                            assert(y[i as int] == y.take(j)[i as int]);
                        }
                    }
                }
                return false;
            }
            assert(self.key().take(i + 1) =~= self.key().take(i as int).push(a));
            assert(other.key().take(i + 1) =~= other.key().take(i as int).push(b));
            i = i + 1;
        }
        proof {
            let x = self.key();
            let y = other.key();
            assert forall|j: int|
                0 <= j < x.len() && j < y.len() && x.take(j) == y.take(j)
                implies !(x[j] < y[j]) by {
                assert(x[j] == x.take(32)[j]);
                assert(y[j] == y.take(32)[j]);
            }
        }
        false
    }
}

} // verus!

verus! {

/// No key orders before itself.
pub proof fn lemma_bytes_lt_irreflexive(a: Seq<u8>)
    ensures
        !bytes_lt(a, a),
{
}

/// The byte order is asymmetric.
pub proof fn lemma_bytes_lt_asymmetric(a: Seq<u8>, b: Seq<u8>)
    requires
        bytes_lt(a, b),
    ensures
        !bytes_lt(b, a),
{
    let i = choose|i: int| 0 <= i < a.len() && i < b.len() && a.take(i) == b.take(i) && a[i] < b[i];
    if bytes_lt(b, a) {
        let j = choose|j: int| 0 <= j < b.len() && j < a.len() && b.take(j) == a.take(j) && b[j] < a[j];
        if i < j {
            assert(a[i] == a.take(j)[i]);
            assert(b[i] == b.take(j)[i]);
        } else if j < i {
            assert(a[j] == a.take(i)[j]);
            assert(b[j] == b.take(i)[j]);
        }
    }
}

/// The byte order is transitive.
pub proof fn lemma_bytes_lt_transitive(a: Seq<u8>, b: Seq<u8>, c: Seq<u8>)
    requires
        bytes_lt(a, b),
        bytes_lt(b, c),
        a.len() == b.len(),
        b.len() == c.len(),
    ensures
        bytes_lt(a, c),
{
    let i = choose|i: int| 0 <= i < a.len() && i < b.len() && a.take(i) == b.take(i) && a[i] < b[i];
    let j = choose|j: int| 0 <= j < b.len() && j < c.len() && b.take(j) == c.take(j) && b[j] < c[j];
    if i < j {
        assert(b.take(i) =~= c.take(i)) by {
            assert forall|k: int| 0 <= k < i implies b.take(i)[k] == c.take(i)[k] by {
                assert(b[k] == b.take(j)[k]);
                assert(c[k] == c.take(j)[k]);
            }
        }
        assert(b[i] == b.take(j)[i]);
        assert(c[i] == c.take(j)[i]);
        assert(a.take(i) == c.take(i));
    } else if j < i {
        assert(a.take(j) =~= b.take(j)) by {
            assert forall|k: int| 0 <= k < j implies a.take(j)[k] == b.take(j)[k] by {
                assert(a[k] == a.take(i)[k]);
                assert(b[k] == b.take(i)[k]);
            }
        }
        assert(a[j] == a.take(i)[j]);
        assert(b[j] == b.take(i)[j]);
        assert(a.take(j) == c.take(j));
    } else {
        assert(a.take(i) == c.take(i));
    }
}

/// Any two distinct keys of the same length are ordered one way or the other.
pub proof fn lemma_bytes_lt_total(a: Seq<u8>, b: Seq<u8>)
    requires
        a.len() == b.len(),
        a != b,
    ensures
        bytes_lt(a, b) || bytes_lt(b, a),
{
    assert(a.take(0) =~= b.take(0));
    lemma_first_difference(a, b, 0);
}

proof fn lemma_first_difference(a: Seq<u8>, b: Seq<u8>, i: int)
    requires
        a.len() == b.len(),
        a != b,
        0 <= i <= a.len(),
        a.take(i) == b.take(i),
    ensures
        bytes_lt(a, b) || bytes_lt(b, a),
    decreases a.len() - i,
{
    if i == a.len() {
        assert(a =~= a.take(i));
        assert(b =~= b.take(i));
    } else if a[i] == b[i] {
        assert(a.take(i + 1) =~= a.take(i).push(a[i]));
        assert(b.take(i + 1) =~= b.take(i).push(b[i]));
        lemma_first_difference(a, b, i + 1);
    } else if a[i] < b[i] {
        assert(bytes_lt(a, b));
    } else {
        assert(bytes_lt(b, a));
    }
}

} // verus!
