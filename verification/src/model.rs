//! The values that requests and replies are made of.

use vstd::prelude::*;
use crate::methods::Method;

verus! {

/// A number by which the service pairs a reply with its request.
#[derive(Debug, Clone, Copy, PartialEq, Eq, Structural)]
pub struct RequestId(pub u64);

/// An API key: an opaque credential that goes out with every request.
#[derive(Debug)]
pub struct ApiKey(pub String);

impl Clone for ApiKey {
    fn clone(&self) -> (r: ApiKey)
        ensures
            r@ == self@,
    {
        ApiKey(self.0.clone())
    }
}

impl View for ApiKey {
    type V = Seq<char>;

    open spec fn view(&self) -> Seq<char> {
        self.0@
    }
}

/// The state of an API key.
#[derive(Debug, Clone, Copy, PartialEq, Eq, Structural)]
pub enum ApiKeyStatus {
    /// The key has been revoked.
    Stopped,
    /// The key has been paused: it does not work, but is not revoked.
    Paused,
    /// The key is valid and serves requests.
    Running,
}

impl ApiKeyStatus {
    /// The name of a state on the wire: its name in lower case.
    pub open spec fn wire_name(self) -> Seq<char> {
        match self {
            ApiKeyStatus::Stopped => "stopped"@,
            ApiKeyStatus::Paused => "paused"@,
            ApiKeyStatus::Running => "running"@,
        }
    }

    /// The state that a name on the wire stands for.
    pub open spec fn of_wire_name(name: Seq<char>) -> Option<ApiKeyStatus> {
        if name == "stopped"@ {
            Some(ApiKeyStatus::Stopped)
        } else if name == "paused"@ {
            Some(ApiKeyStatus::Paused)
        } else if name == "running"@ {
            Some(ApiKeyStatus::Running)
        } else {
            None
        }
    }

    /// Returns the name of the state on the wire.
    pub fn name(self) -> (name: &'static str)
        ensures
            name@ == self.wire_name(),
    {
        match self {
            ApiKeyStatus::Stopped => "stopped",
            ApiKeyStatus::Paused => "paused",
            ApiKeyStatus::Running => "running",
        }
    }

    /// Returns the state that a name on the wire stands for, if it stands for one.
    pub fn from_name(name: &String) -> (r: Option<ApiKeyStatus>)
        ensures
            r == ApiKeyStatus::of_wire_name(name@),
    {
        if *name == "stopped".to_owned() {
            Some(ApiKeyStatus::Stopped)
        } else if *name == "paused".to_owned() {
            Some(ApiKeyStatus::Paused)
        } else if *name == "running".to_owned() {
            Some(ApiKeyStatus::Running)
        } else {
            None
        }
    }
}

/// Whether the characters of a sequence stand in ascending order of their code
/// points, none of them twice.
pub open spec fn ascending(s: Seq<char>) -> bool {
    forall|i: int, j: int| 0 <= i < j < s.len() ==> s[i] < s[j]
}

/// The characters that random strings are drawn from: a set, held in ascending
/// order.
#[derive(Debug)]
pub struct AllowedCharacters {
    chars: Vec<char>,
}

impl View for AllowedCharacters {
    type V = Set<char>;

    closed spec fn view(&self) -> Set<char> {
        self.chars@.to_set()
    }
}

impl AllowedCharacters {
    /// The characters of the set in the order in which they go out: ascending.
    pub closed spec fn sequence(&self) -> Seq<char> {
        self.chars@
    }

    /// The sequence holds each character of the set once, in ascending order.
    pub open spec fn well_formed(&self) -> bool {
        &&& ascending(self.sequence())
        &&& self.sequence().to_set() == self@
    }

    #[verifier::type_invariant]
    spec fn ordered(&self) -> bool {
        ascending(self.chars@)
    }

    /// The empty set.
    pub fn new() -> (r: AllowedCharacters)
        ensures
            r@ == Set::<char>::empty(),
            r.well_formed(),
    {
        let r = AllowedCharacters { chars: Vec::new() };
        assert(r.chars@.to_set() =~= Set::<char>::empty());
        r
    }

    /// The number of characters in the set.
    pub fn len(&self) -> (n: usize)
        ensures
            n == self@.len(),
            n == self.sequence().len(),
            self.well_formed(),
    {
        proof {
            use_type_invariant(self);
            lemma_ascending_has_no_duplicates(self.chars@);
            self.chars@.unique_seq_to_set();
        }
        self.chars.len()
    }

    /// Adds a character to the set. Returns whether it was new to the set.
    pub fn insert(&mut self, c: char) -> (added: bool)
        ensures
            final(self)@ == old(self)@.insert(c),
            added == !old(self)@.contains(c),
            final(self).well_formed(),
    {
        proof {
            use_type_invariant(&*self);
        }
        let n = self.chars.len();
        let mut i: usize = 0;
        while i < n && self.chars[i] < c
            invariant
                n == self.chars.len(),
                i <= n,
                ascending(self.chars@),
                forall|k: int| 0 <= k < i ==> self.chars@[k] < c,
            decreases n - i,
        {
            i += 1;
        }
        if i < n && self.chars[i] == c {
            proof {
                assert(self.chars@.to_set() =~= self.chars@.to_set().insert(c));
            }
            false
        } else {
            let ghost before = self.chars@;
            let mut chars: Vec<char> = Vec::new();
            let mut k: usize = 0;
            while k < i
                invariant
                    n == self.chars.len(),
                    k <= i <= n,
                    chars@ == self.chars@.subrange(0, k as int),
                decreases i - k,
            {
                chars.push(self.chars[k]);
                k += 1;
            }
            chars.push(c);
            while k < n
                invariant
                    n == self.chars.len(),
                    i <= k <= n,
                    chars@ == self.chars@.subrange(0, i as int).push(c) + self.chars@.subrange(
                        i as int,
                        k as int,
                    ),
                decreases n - k,
            {
                chars.push(self.chars[k]);
                k += 1;
            }
            proof {
                let after = chars@;
                assert(after.len() == n + 1);
                assert(forall|x: int| 0 <= x < i ==> after[x] == before[x]);
                assert(after[i as int] == c);
                assert(forall|x: int| i < x <= n ==> after[x] == before[x - 1]);
                assert(forall|x: int| i <= x < n ==> c < before[x]) by {
                    if i < n {
                        assert(c <= before[i as int]);
                        assert(before[i as int] != c);
                    }
                }
                assert(ascending(after));
                assert forall|x: char| after.to_set().contains(x) == before.to_set().insert(
                    c,
                ).contains(x) by {
                    if before.contains(x) {
                        let p = choose|p: int| 0 <= p < before.len() && before[p] == x;
                        if p < i {
                            assert(after[p] == x);
                        } else {
                            assert(after[p + 1] == x);
                        }
                    }
                    if x == c {
                        assert(after[i as int] == x);
                    }
                    if after.contains(x) {
                        let p = choose|p: int| 0 <= p < after.len() && after[p] == x;
                        if p < i {
                            assert(before[p] == x);
                        } else if p > i {
                            assert(before[p - 1] == x);
                        }
                    }
                }
                assert(after.to_set() =~= before.to_set().insert(c));
                assert(!before.contains(c)) by {
                    if before.contains(c) {
                        let p = choose|p: int| 0 <= p < before.len() && before[p] == c;
                        if p < i {
                            assert(before[p] < c);
                        } else {
                            assert(c < before[p]);
                        }
                    }
                }
            }
            self.chars = chars;
            true
        }
    }

    /// The set of the characters of a text.
    pub fn from_chars(text: &str) -> (r: AllowedCharacters)
        ensures
            r@ == text@.to_set(),
            r.well_formed(),
    {
        let mut r = AllowedCharacters::new();
        let n = text.unicode_len();
        let mut i: usize = 0;
        while i < n
            invariant
                n == text@.len(),
                i <= n,
                r@ == text@.subrange(0, i as int).to_set(),
                r.well_formed(),
            decreases n - i,
        {
            let c = text.get_char(i);
            r.insert(c);
            proof {
                let done = text@.subrange(0, i as int);
                assert(text@.subrange(0, i + 1) == done.push(c));
                assert(done.push(c).to_set() =~= done.to_set().insert(c)) by {
                    assert forall|x: char| done.push(c).to_set().contains(x) == done.to_set().insert(
                        c,
                    ).contains(x) by {
                        if done.push(c).contains(x) {
                            let p = choose|p: int| 0 <= p < done.push(c).len() && done.push(c)[p] == x;
                            if p < done.len() {
                                assert(done[p] == x);
                            }
                        }
                        if done.contains(x) {
                            let p = choose|p: int| 0 <= p < done.len() && done[p] == x;
                            assert(done.push(c)[p] == x);
                        }
                        if x == c {
                            assert(done.push(c)[done.len() as int] == x);
                        }
                    }
                }
            }
            i += 1;
        }
        proof {
            assert(text@.subrange(0, n as int) == text@);
        }
        r
    }
}

impl AllowedCharacters {
    /// The characters of the set as one string, in ascending order.
    pub fn to_text(&self) -> (text: String)
        ensures
            text@ == self.sequence(),
            self.well_formed(),
    {
        proof {
            use_type_invariant(self);
        }
        let n = self.chars.len();
        let mut text = String::new();
        let mut i: usize = 0;
        while i < n
            invariant
                n == self.chars.len(),
                i <= n,
                text@ == self.chars@.subrange(0, i as int),
            decreases n - i,
        {
            push_char(&mut text, self.chars[i]);
            proof {
                assert(self.chars@.subrange(0, i + 1) == self.chars@.subrange(0, i as int).push(
                    self.chars@[i as int],
                ));
            }
            i += 1;
        }
        proof {
            assert(self.chars@.subrange(0, n as int) == self.chars@);
        }
        text
    }
}

/// `String::push`: the character is appended to the string.
#[verifier::external_body]
fn push_char(text: &mut String, c: char)
    ensures
        final(text)@ == old(text)@.push(c),
{
    text.push(c)
}

/// The envelope of a request: what goes to the service for one call.
#[derive(Debug)]
pub struct Request<Params> {
    /// The version of JSON-RPC.
    pub json_rpc: String,
    /// The operation that is called.
    pub method: Method,
    /// The parameters of the operation.
    pub params: Params,
    /// A number that the service returns unchanged in its reply.
    pub id: RequestId,
}

/// The envelope of a reply: what comes back from the service where a call
/// succeeded.
#[derive(Debug)]
pub struct Response<ResponseResult> {
    /// The version of JSON-RPC.
    pub json_rpc: String,
    /// What the operation returned.
    pub result: ResponseResult,
    /// The number that the request went out with.
    pub id: RequestId,
}

/// The content of a [`Response`].
pub struct ResponseView<R> {
    pub json_rpc: Seq<char>,
    pub result: R,
    pub id: RequestId,
}

impl<R: View> View for Response<R> {
    type V = ResponseView<R::V>;

    open spec fn view(&self) -> ResponseView<R::V> {
        ResponseView { json_rpc: self.json_rpc@, result: self.result@, id: self.id }
    }
}

/// Two sequences in ascending order that hold the same characters are the same
/// sequence: the order in which characters were added to a set leaves no trace in
/// what goes out.
pub proof fn lemma_ascending_is_unique(a: Seq<char>, b: Seq<char>)
    requires
        ascending(a),
        ascending(b),
        a.to_set() == b.to_set(),
    ensures
        a == b,
    decreases a.len(),
{
    if a.len() == 0 {
        if b.len() > 0 {
            assert(b.to_set().contains(b[0]));
            assert(a.contains(b[0]));
        }
        assert(a =~= b);
    } else {
        assert(a.to_set().contains(a.last()));
        assert(b.contains(a.last()));
        let q = choose|q: int| 0 <= q < b.len() && b[q] == a.last();
        assert(b.to_set().contains(b.last()));
        assert(a.contains(b.last()));
        let p = choose|p: int| 0 <= p < a.len() && a[p] == b.last();
        assert(a.last() == b.last()) by {
            if p < a.len() - 1 {
                assert(a[p] < a[a.len() - 1]);
            }
            if q < b.len() - 1 {
                assert(b[q] < b[b.len() - 1]);
            }
        }
        let a0 = a.drop_last();
        let b0 = b.drop_last();
        assert forall|x: char| a0.to_set().contains(x) == b0.to_set().contains(x) by {
            if a0.contains(x) {
                let i = choose|i: int| 0 <= i < a0.len() && a0[i] == x;
                assert(a[i] == x);
                assert(a[i] < a[a.len() - 1]);
                assert(a.to_set().contains(x));
                assert(b.contains(x));
                let j = choose|j: int| 0 <= j < b.len() && b[j] == x;
                assert(b0[j] == x);
            }
            if b0.contains(x) {
                let j = choose|j: int| 0 <= j < b0.len() && b0[j] == x;
                assert(b[j] == x);
                assert(b[j] < b[b.len() - 1]);
                assert(b.to_set().contains(x));
                assert(a.contains(x));
                let i = choose|i: int| 0 <= i < a.len() && a[i] == x;
                assert(a0[i] == x);
            }
        }
        assert(a0.to_set() =~= b0.to_set());
        lemma_ascending_is_unique(a0, b0);
        assert(a =~= a0.push(a.last()));
        assert(b =~= b0.push(b.last()));
    }
}

/// However two sets of allowed characters were built, if they hold the same
/// characters then the same string goes out for both, and it holds each character
/// once.
pub proof fn lemma_characters_go_out_once_in_one_order(
    a: AllowedCharacters,
    b: AllowedCharacters,
)
    requires
        a.well_formed(),
        b.well_formed(),
        a@ == b@,
    ensures
        a.sequence() == b.sequence(),
        a.sequence().no_duplicates(),
        a.sequence().to_set() == a@,
{
    lemma_ascending_is_unique(a.sequence(), b.sequence());
    lemma_ascending_has_no_duplicates(a.sequence());
}

/// A sequence in ascending order holds no character twice.
pub proof fn lemma_ascending_has_no_duplicates(s: Seq<char>)
    requires
        ascending(s),
    ensures
        s.no_duplicates(),
{
    assert forall|i: int, j: int| 0 <= i < s.len() && 0 <= j < s.len() && i != j implies s[i]
        != s[j] by {
        if i < j {
            assert(s[i] < s[j]);
        } else {
            assert(s[j] < s[i]);
        }
    }
}

} // verus!
