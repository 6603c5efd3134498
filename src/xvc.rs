//! XVC hashers: keyed digests over a request's device and session material.

use crate::digest::{sha512_digest, sha512_of};
use vstd::prelude::*;
use vstd::string::StringExecFns;

verus! {

/// The `|`-joined text of five fields, in the order given.
pub open spec fn xvc_message(
    a: Seq<char>,
    b: Seq<char>,
    c: Seq<char>,
    d: Seq<char>,
    e: Seq<char>,
) -> Seq<char> {
    a + seq!['|'] + b + seq!['|'] + c + seq!['|'] + d + seq!['|'] + e
}

/// Joins five fields with `|`.
fn join_xvc_fields(a: &str, b: &str, c: &str, d: &str, e: &str) -> (r: String)
    ensures
        r@ == xvc_message(a@, b@, c@, d@, e@),
{
    let sep = "|";
    proof {
        reveal_strlit("|");
    }
    let mut s = String::from_str(a);
    s.append(sep);
    s.append(b);
    s.append(sep);
    s.append(c);
    s.append(sep);
    s.append(d);
    s.append(sep);
    s.append(e);
    assert(s@ =~= xvc_message(a@, b@, c@, d@, e@));
    s
}

/// A strategy that computes the full XVC digest of a request.
pub trait XVCHasher {
    /// The digest over the device UUID, the user agent and the email.
    spec fn spec_full_xvc_hash(
        &self,
        device_uuid: Seq<char>,
        user_agent: Seq<char>,
        email: Seq<char>,
    ) -> Seq<u8>;

    /// Computes the full 64-byte digest.
    fn full_xvc_hash(&self, device_uuid: &str, user_agent: &str, email: &str) -> (r: Vec<u8>)
        ensures
            r@ == self.spec_full_xvc_hash(device_uuid@, user_agent@, email@),
            r@.len() == 64,
    ;
}

/// The desktop client's format:
/// `sha512("{first}|{user_agent}|{second}|{email}|{device_uuid}")`.
#[derive(Debug, Clone)]
pub struct Win32XVCHasher {
    first: String,
    second: String,
}

impl Win32XVCHasher {
    /// The first seed.
    pub closed spec fn first_seed(&self) -> Seq<char> {
        self.first@
    }

    /// The second seed.
    pub closed spec fn second_seed(&self) -> Seq<char> {
        self.second@
    }

    /// The text that is hashed for the given request material.
    pub open spec fn message(
        &self,
        device_uuid: Seq<char>,
        user_agent: Seq<char>,
        email: Seq<char>,
    ) -> Seq<char> {
        xvc_message(self.first_seed(), user_agent, self.second_seed(), email, device_uuid)
    }

    pub fn new(first: String, second: String) -> (r: Self)
        ensures
            r.first_seed() == first@,
            r.second_seed() == second@,
    {
        Self { first, second }
    }

    pub fn new_const(first: &str, second: &str) -> (r: Self)
        ensures
            r.first_seed() == first@,
            r.second_seed() == second@,
    {
        Self { first: String::from_str(first), second: String::from_str(second) }
    }
}

impl XVCHasher for Win32XVCHasher {
    open spec fn spec_full_xvc_hash(
        &self,
        device_uuid: Seq<char>,
        user_agent: Seq<char>,
        email: Seq<char>,
    ) -> Seq<u8> {
        sha512_of(self.message(device_uuid, user_agent, email))
    }

    fn full_xvc_hash(&self, device_uuid: &str, user_agent: &str, email: &str) -> (r: Vec<u8>) {
        let message = join_xvc_fields(
            self.first.as_str(),
            user_agent,
            self.second.as_str(),
            email,
            device_uuid,
        );
        sha512_digest(message.as_str())
    }
}

/// The Android sub-device client's format:
/// `sha512("{first}|{user_agent}|{second}|{email}|{third}")`; the device UUID
/// takes no part.
#[derive(Debug, Clone)]
pub struct AndroidSubXVCHasher {
    first: String,
    second: String,
    third: String,
}

impl AndroidSubXVCHasher {
    /// The first seed.
    pub closed spec fn first_seed(&self) -> Seq<char> {
        self.first@
    }

    /// The second seed.
    pub closed spec fn second_seed(&self) -> Seq<char> {
        self.second@
    }

    /// The third seed.
    pub closed spec fn third_seed(&self) -> Seq<char> {
        self.third@
    }

    /// The text that is hashed for the given request material.
    pub open spec fn message(&self, user_agent: Seq<char>, email: Seq<char>) -> Seq<char> {
        xvc_message(self.first_seed(), user_agent, self.second_seed(), email, self.third_seed())
    }

    pub fn new(first: String, mid: String, third: String) -> (r: Self)
        ensures
            r.first_seed() == first@,
            r.second_seed() == mid@,
            r.third_seed() == third@,
    {
        Self { first, second: mid, third }
    }

    pub fn new_const(first: &str, second: &str, third: &str) -> (r: Self)
        ensures
            r.first_seed() == first@,
            r.second_seed() == second@,
            r.third_seed() == third@,
    {
        Self {
            first: String::from_str(first),
            second: String::from_str(second),
            third: String::from_str(third),
        }
    }
}

impl XVCHasher for AndroidSubXVCHasher {
    open spec fn spec_full_xvc_hash(
        &self,
        device_uuid: Seq<char>,
        user_agent: Seq<char>,
        email: Seq<char>,
    ) -> Seq<u8> {
        sha512_of(self.message(user_agent, email))
    }

    fn full_xvc_hash(&self, device_uuid: &str, user_agent: &str, email: &str) -> (r: Vec<u8>) {
        let message = join_xvc_fields(
            self.first.as_str(),
            user_agent,
            self.second.as_str(),
            email,
            self.third.as_str(),
        );
        sha512_digest(message.as_str())
    }
}

/// Two Win32 hashers with the same seeds give the same digest for the same
/// device UUID, user agent and email: the digest depends on nothing else.
pub proof fn win32_digest_deterministic(
    h1: Win32XVCHasher,
    h2: Win32XVCHasher,
    device_uuid: Seq<char>,
    user_agent: Seq<char>,
    email: Seq<char>,
)
    requires
        h1.first_seed() == h2.first_seed(),
        h1.second_seed() == h2.second_seed(),
    ensures
        h1.spec_full_xvc_hash(device_uuid, user_agent, email) == h2.spec_full_xvc_hash(
            device_uuid,
            user_agent,
            email,
        ),
{
}

/// The Android sub-device digest does not depend on the device UUID.
pub proof fn android_sub_ignores_device_uuid(
    h: AndroidSubXVCHasher,
    uuid1: Seq<char>,
    uuid2: Seq<char>,
    user_agent: Seq<char>,
    email: Seq<char>,
)
    ensures
        h.spec_full_xvc_hash(uuid1, user_agent, email) == h.spec_full_xvc_hash(
            uuid2,
            user_agent,
            email,
        ),
{
}

proof fn lemma_middle_injective(p: Seq<char>, x: Seq<char>, y: Seq<char>, s: Seq<char>)
    requires
        x != y,
    ensures
        p + x + s != p + y + s,
{
    if x.len() == y.len() {
        if forall|i: int| 0 <= i < x.len() ==> x[i] == y[i] {
            assert(x =~= y);
        }
        let i = choose|i: int| 0 <= i < x.len() && x[i] != y[i];
        assert((p + x + s)[p.len() + i] == x[i]);
        assert((p + y + s)[p.len() + i] == y[i]);
    } else {
        assert((p + x + s).len() != (p + y + s).len());
    }
}

/// Changing exactly one of the five fields changes the `|`-joined text that
/// is hashed, so no field of a hasher's input is dropped or folded away.
pub proof fn xvc_message_one_field_injective(
    a: Seq<char>,
    b: Seq<char>,
    c: Seq<char>,
    d: Seq<char>,
    e: Seq<char>,
    a2: Seq<char>,
    b2: Seq<char>,
    c2: Seq<char>,
    d2: Seq<char>,
    e2: Seq<char>,
)
    requires
        (a != a2 && b == b2 && c == c2 && d == d2 && e == e2) || (a == a2 && b != b2 && c == c2
            && d == d2 && e == e2) || (a == a2 && b == b2 && c != c2 && d == d2 && e == e2) || (a
            == a2 && b == b2 && c == c2 && d != d2 && e == e2) || (a == a2 && b == b2 && c == c2
            && d == d2 && e != e2),
    ensures
        xvc_message(a, b, c, d, e) != xvc_message(a2, b2, c2, d2, e2),
{
    let bar = seq!['|'];
    let empty = Seq::<char>::empty();
    if a != a2 {
        let s = bar + b + bar + c + bar + d + bar + e;
        assert(xvc_message(a, b, c, d, e) =~= empty + a + s);
        assert(xvc_message(a2, b2, c2, d2, e2) =~= empty + a2 + s);
        lemma_middle_injective(empty, a, a2, s);
    } else if b != b2 {
        let p = a + bar;
        let s = bar + c + bar + d + bar + e;
        assert(xvc_message(a, b, c, d, e) =~= p + b + s);
        assert(xvc_message(a2, b2, c2, d2, e2) =~= p + b2 + s);
        lemma_middle_injective(p, b, b2, s);
    } else if c != c2 {
        let p = a + bar + b + bar;
        let s = bar + d + bar + e;
        assert(xvc_message(a, b, c, d, e) =~= p + c + s);
        assert(xvc_message(a2, b2, c2, d2, e2) =~= p + c2 + s);
        lemma_middle_injective(p, c, c2, s);
    } else if d != d2 {
        let p = a + bar + b + bar + c + bar;
        let s = bar + e;
        assert(xvc_message(a, b, c, d, e) =~= p + d + s);
        assert(xvc_message(a2, b2, c2, d2, e2) =~= p + d2 + s);
        lemma_middle_injective(p, d, d2, s);
    } else {
        let p = a + bar + b + bar + c + bar + d + bar;
        assert(xvc_message(a, b, c, d, e) =~= p + e + empty);
        assert(xvc_message(a2, b2, c2, d2, e2) =~= p + e2 + empty);
        lemma_middle_injective(p, e, e2, empty);
    }
}

} // verus!
