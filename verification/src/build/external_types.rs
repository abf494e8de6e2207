//! The types of the host's headers that come from other crates rather
//! than from the generated bindings, and the traits that each of them is
//! known to have.

use crate::build::text::{chars, copy_range, joined, lemma_texts_push, push_all, same, texts};
use vstd::prelude::*;

verus! {

/// A trait that generated bindings may derive.
#[derive(Clone, Copy, Debug, PartialEq, Eq, Structural)]
pub enum DeriveTrait {
    Copy,
    Debug,
    Default,
    Hash,
    PartialEqOrPartialOrd,
}

/// Whether a type has a trait.
#[derive(Clone, Copy, Debug, PartialEq, Eq, Structural)]
pub enum ImplementsTrait {
    Yes,
    Manually,
    No,
}

/// A type of another crate, with the traits it is known to have.
pub struct ExternalType {
    pub name: Vec<char>,
    pub traits: Vec<DeriveTrait>,
}

/// A type of another crate, as name and traits.
pub struct TypeEntry {
    pub name: Seq<char>,
    pub traits: Seq<DeriveTrait>,
}

impl View for ExternalType {
    type V = TypeEntry;

    open spec fn view(&self) -> TypeEntry {
        TypeEntry { name: self.name@, traits: self.traits@ }
    }
}

impl ExternalType {
    /// Whether the type is known to have `derive_trait`.
    pub fn implements(&self, derive_trait: DeriveTrait) -> (r: bool)
        ensures
            r == self@.traits.contains(derive_trait),
    {
        let mut i: usize = 0;
        while i < self.traits.len()
            invariant
                i <= self.traits@.len(),
                forall|k: int| 0 <= k < i ==> self.traits@[k] != derive_trait,
            decreases self.traits@.len() - i,
        {
            if self.traits[i] == derive_trait {
                return true;
            }
            i = i + 1;
        }
        false
    }
}

/// Whether `a` stands before `b` in the order of texts: at the first place
/// where they differ `a` has the smaller character, or `a` ends there and
/// `b` does not.
pub open spec fn text_lt(a: Seq<char>, b: Seq<char>) -> bool
    decreases a.len(),
{
    if b.len() == 0 {
        false
    } else if a.len() == 0 {
        true
    } else if a[0] != b[0] {
        a[0] < b[0]
    } else {
        text_lt(a.drop_first(), b.drop_first())
    }
}

/// Executable form of [`text_lt`].
pub fn text_before(a: &[char], b: &[char]) -> (r: bool)
    ensures
        r == text_lt(a@, b@),
{
    let mut i: usize = 0;
    assert(a@.skip(0) =~= a@ && b@.skip(0) =~= b@);
    while i < a.len() && i < b.len()
        invariant
            i <= a@.len(),
            i <= b@.len(),
            text_lt(a@, b@) == text_lt(a@.skip(i as int), b@.skip(i as int)),
        decreases a@.len() - i,
    {
        proof {
            assert(a@.skip(i as int)[0] == a@[i as int]);
            assert(b@.skip(i as int)[0] == b@[i as int]);
            assert(a@.skip(i as int).drop_first() =~= a@.skip(i + 1));
            assert(b@.skip(i as int).drop_first() =~= b@.skip(i + 1));
        }
        if a[i] != b[i] {
            return a[i] < b[i];
        }
        i = i + 1;
    }
    i < b.len()
}

/// The number of entries at the front of `items` whose names stand before
/// `name`.
pub open spec fn rank(items: Seq<TypeEntry>, name: Seq<char>) -> nat
    decreases items.len(),
{
    if items.len() > 0 && text_lt(items[0].name, name) {
        1 + rank(items.drop_first(), name)
    } else {
        0
    }
}

/// Whether `items` has an entry for `name`.
pub open spec fn has_type(items: Seq<TypeEntry>, name: Seq<char>) -> bool {
    exists|i: int| 0 <= i < items.len() && (#[trigger] items[i]).name == name
}

/// The entries after a type was added: a type whose name is there
/// already changes nothing; a new one goes behind the entries at the front
/// whose names stand before its name.
#[verifier::opaque]
pub open spec fn add_type(items: Seq<TypeEntry>, name: Seq<char>, traits: Seq<DeriveTrait>) -> Seq<
    TypeEntry,
> {
    if has_type(items, name) {
        items
    } else {
        items.insert(rank(items, name) as int, TypeEntry { name, traits })
    }
}

/// Whether the names of `items` stand in ascending order.
pub open spec fn sorted(items: Seq<TypeEntry>) -> bool {
    forall|i: int, j: int|
        0 <= i < j < items.len() ==> text_lt((#[trigger] items[i]).name, (#[trigger] items[j]).name)
}

/// The entries that the vector holds.
pub open spec fn entries(v: Seq<ExternalType>) -> Seq<TypeEntry> {
    Seq::new(v.len(), |i: int| v[i]@)
}

/// A crate with the types that come from it.
pub struct Crate {
    name: Vec<char>,
    items: Vec<ExternalType>,
}

impl Crate {
    /// The name of the crate.
    pub closed spec fn name(&self) -> Seq<char> {
        self.name@
    }

    /// The types of the crate, in the order of their names.
    pub closed spec fn items(&self) -> Seq<TypeEntry> {
        entries(self.items@)
    }

    /// The crate `name`, with no types.
    pub fn new(name: &str) -> (c: Self)
        ensures
            c.name() == name@,
            c.items() == Seq::<TypeEntry>::empty(),
    {
        let c = Crate { name: chars(name), items: Vec::new() };
        assert(c.items() =~= Seq::<TypeEntry>::empty());
        c
    }

    /// Adds the type `name` with `traits`, unless the crate has a type of
    /// that name.
    pub fn add_type(&mut self, name: &str, traits: Vec<DeriveTrait>)
        ensures
            final(self).name() == old(self).name(),
            final(self).items() == add_type(old(self).items(), name@, traits@),
    {
        proof {
            reveal(add_type);
        }
        let n = chars(name);
        let ghost items = self.items();
        let mut i: usize = 0;
        while i < self.items.len()
            invariant
                i <= self.items@.len(),
                n@ == name@,
                items == self.items(),
                forall|k: int| 0 <= k < i ==> (#[trigger] items[k]).name != name@,
            decreases self.items@.len() - i,
        {
            if same(self.items[i].name.as_slice(), n.as_slice()) {
                proof {
                    reveal(add_type);
                    assert(items[i as int].name == name@);
                }
                return ;
            }
            i = i + 1;
        }
        let mut pos: usize = 0;
        assert(items.skip(0) =~= items);
        while pos < self.items.len() && text_before(self.items[pos].name.as_slice(), n.as_slice())
            invariant
                pos <= self.items@.len(),
                n@ == name@,
                items == self.items(),
                rank(items, name@) == pos + rank(items.skip(pos as int), name@),
            decreases self.items@.len() - pos,
        {
            proof {
                assert(items.skip(pos as int)[0] == items[pos as int]);
                assert(items.skip(pos as int).drop_first() =~= items.skip(pos + 1));
            }
            pos = pos + 1;
        }
        proof {
            reveal(add_type);
            if pos < self.items@.len() {
                assert(items.skip(pos as int)[0] == items[pos as int]);
            }
        }
        self.items.insert(pos, ExternalType { name: n, traits });
        assert(self.items() =~= items.insert(pos as int, TypeEntry { name: name@, traits: traits@ }));
    }

    /// Adds the type `name`, which has `Copy`.
    pub fn add_type_copy(&mut self, name: &str)
        ensures
            final(self).name() == old(self).name(),
            final(self).items() == add_type(old(self).items(), name@, seq![DeriveTrait::Copy]),
    {
        let t = vec![DeriveTrait::Copy];
        assert(t@ =~= seq![DeriveTrait::Copy]);
        self.add_type(name, t)
    }

    /// Adds the type `name`, which has `Copy` and `Debug`.
    pub fn add_type_copy_debug(&mut self, name: &str)
        ensures
            final(self).name() == old(self).name(),
            final(self).items() == add_type(
                old(self).items(),
                name@,
                seq![DeriveTrait::Copy, DeriveTrait::Debug],
            ),
    {
        let t = vec![DeriveTrait::Copy, DeriveTrait::Debug];
        assert(t@ =~= seq![DeriveTrait::Copy, DeriveTrait::Debug]);
        self.add_type(name, t)
    }

    /// The names of the types, in their order.
    pub fn type_names(&self) -> (v: Vec<Vec<char>>)
        ensures
            texts(v@) == names(self.items()),
    {
        let mut v: Vec<Vec<char>> = Vec::new();
        let mut i: usize = 0;
        while i < self.items.len()
            invariant
                i <= self.items@.len(),
                texts(v@) == names(self.items().take(i as int)),
            decreases self.items@.len() - i,
        {
            let name = copy_range(self.items[i].name.as_slice(), 0, self.items[i].name.len());
            proof {
                assert(name@ =~= self.items@[i as int].name@);
                lemma_texts_push(v@, name);
                assert(self.items()[i as int].name == name@);
                assert(names(self.items().take(i + 1)) =~= names(self.items().take(i as int)).push(
                    name@,
                ));
            }
            v.push(name);
            i = i + 1;
        }
        assert(self.items().take(i as int) == self.items());
        v
    }

    /// The declaration that brings the types of the crate into scope.
    pub fn uses(&self) -> (v: Vec<char>)
        ensures
            v@ == use_line(self.name(), self.items()),
    {
        let mut v = chars("use ");
        push_all(&mut v, self.name.as_slice());
        let open = chars("::{");
        push_all(&mut v, open.as_slice());
        let comma = chars(",");
        let names = self.type_names();
        let list = joined(&names, comma.as_slice());
        push_all(&mut v, list.as_slice());
        let close = chars("};");
        push_all(&mut v, close.as_slice());
        v
    }

    /// The type `name` of the crate, if it has one.
    pub fn find(&self, name: &[char]) -> (r: Option<&ExternalType>)
        ensures
            r.is_some() == has_type(self.items(), name@),
            r matches Some(t) ==> t@ == first_type(self.items(), name@),
    {
        let ghost items = self.items();
        let mut i: usize = 0;
        assert(items.skip(0) =~= items);
        while i < self.items.len()
            invariant
                i <= self.items@.len(),
                items == self.items(),
                forall|k: int| 0 <= k < i ==> (#[trigger] items[k]).name != name@,
                first_type(items, name@) == first_type(items.skip(i as int), name@),
            decreases self.items@.len() - i,
        {
            proof {
                assert(items.skip(i as int)[0] == items[i as int]);
                assert(items.skip(i as int).drop_first() =~= items.skip(i + 1));
            }
            if same(self.items[i].name.as_slice(), name) {
                assert(items[i as int].name == name@);
                return Some(&self.items[i]);
            }
            i = i + 1;
        }
        None
    }
}

/// The names of `items`, in their order.
pub open spec fn names(items: Seq<TypeEntry>) -> Seq<Seq<char>> {
    Seq::new(items.len(), |i: int| items[i].name)
}

/// The first entry of `items` for `name`.
pub open spec fn first_type(items: Seq<TypeEntry>, name: Seq<char>) -> TypeEntry
    decreases items.len(),
{
    if items.len() == 0 {
        TypeEntry { name: Seq::empty(), traits: Seq::empty() }
    } else if items[0].name == name {
        items[0]
    } else {
        first_type(items.drop_first(), name)
    }
}

/// The declaration that brings the types `items` of crate `name` into
/// scope.
pub open spec fn use_line(name: Seq<char>, items: Seq<TypeEntry>) -> Seq<char> {
    "use "@ + name + "::{"@ + crate::build::text::join(names(items), ","@) + "};"@
}

/// Of two texts, one stands before the other or they are the same, and
/// never both.
pub proof fn lemma_text_lt_total(a: Seq<char>, b: Seq<char>)
    ensures
        a == b || text_lt(a, b) || text_lt(b, a),
        !(text_lt(a, b) && text_lt(b, a)),
        a == b ==> !text_lt(a, b),
    decreases a.len(),
{
    if a.len() > 0 && b.len() > 0 && a[0] == b[0] {
        lemma_text_lt_total(a.drop_first(), b.drop_first());
        if a.drop_first() == b.drop_first() {
            assert(a =~= seq![a[0]] + a.drop_first());
            assert(b =~= seq![b[0]] + b.drop_first());
        }
    } else if a.len() == 0 && b.len() == 0 {
        assert(a =~= b);
    }
}

/// What stands before a text that stands before a third, stands before
/// the third.
pub proof fn lemma_text_lt_trans(a: Seq<char>, b: Seq<char>, c: Seq<char>)
    requires
        text_lt(a, b),
        text_lt(b, c),
    ensures
        text_lt(a, c),
    decreases a.len(),
{
    if a.len() > 0 && a[0] == b[0] && b[0] == c[0] {
        lemma_text_lt_trans(a.drop_first(), b.drop_first(), c.drop_first());
    }
}

/// The entries before the rank of a name stand before the name, and the
/// entry at the rank does not.
pub proof fn lemma_rank(items: Seq<TypeEntry>, name: Seq<char>)
    ensures
        rank(items, name) <= items.len(),
        forall|k: int| 0 <= k < rank(items, name) ==> text_lt((#[trigger] items[k]).name, name),
        rank(items, name) < items.len() ==> !text_lt(items[rank(items, name) as int].name, name),
    decreases items.len(),
{
    if items.len() > 0 && text_lt(items[0].name, name) {
        let t = items.drop_first();
        lemma_rank(t, name);
        assert forall|k: int| 0 <= k < rank(items, name) implies text_lt(
            (#[trigger] items[k]).name,
            name,
        ) by {
            if k > 0 {
                assert(items[k] == t[k - 1]);
            }
        }
        if rank(items, name) < items.len() {
            assert(items[rank(items, name) as int] == t[rank(t, name) as int]);
        }
    }
}

/// Adding a type keeps the names in ascending order, so that no name
/// occurs twice.
pub proof fn lemma_add_type_sorted(items: Seq<TypeEntry>, name: Seq<char>, traits: Seq<DeriveTrait>)
    requires
        sorted(items),
    ensures
        sorted(add_type(items, name, traits)),
{
    reveal(add_type);
    if !has_type(items, name) {
        let r = rank(items, name) as int;
        let e = TypeEntry { name, traits };
        let t = items.insert(r, e);
        lemma_rank(items, name);
        assert forall|i: int, j: int| 0 <= i < j < t.len() implies text_lt(
            (#[trigger] t[i]).name,
            (#[trigger] t[j]).name,
        ) by {
            if j < r {
                assert(t[i] == items[i] && t[j] == items[j]);
            } else if j == r {
                assert(t[i] == items[i]);
            } else if i == r {
                // The new entry against one behind it.
                assert(t[j] == items[j - 1]);
                assert(items[r].name != name);
                lemma_text_lt_total(items[r].name, name);
                if j - 1 > r {
                    assert(text_lt(items[r].name, items[j - 1].name));
                    lemma_text_lt_trans(name, items[r].name, items[j - 1].name);
                }
            } else if i < r {
                assert(t[i] == items[i] && t[j] == items[j - 1]);
            } else {
                assert(t[i] == items[i - 1] && t[j] == items[j - 1]);
            }
        }
    }
}

/// The words of `s` from place `i` on, where `word` holds the characters
/// of the word that place `i` continues: the runs of characters between
/// ASCII white space.
pub open spec fn words_from(s: Seq<char>, i: int, word: Seq<char>) -> Seq<Seq<char>>
    decreases s.len() - i,
{
    if i < 0 || i >= s.len() {
        if word.len() > 0 {
            seq![word]
        } else {
            Seq::empty()
        }
    } else if crate::build::text::is_ascii_whitespace(s[i]) {
        if word.len() > 0 {
            seq![word] + words_from(s, i + 1, Seq::empty())
        } else {
            words_from(s, i + 1, Seq::empty())
        }
    } else {
        words_from(s, i + 1, word.push(s[i]))
    }
}

/// The words of `s`: the runs of characters between ASCII white space.
pub open spec fn words(s: Seq<char>) -> Seq<Seq<char>> {
    words_from(s, 0, Seq::empty())
}

/// Executable form of [`words`].
pub fn split_ascii_whitespace(s: &[char]) -> (out: Vec<Vec<char>>)
    ensures
        texts(out@) == words(s@),
{
    let mut out: Vec<Vec<char>> = Vec::new();
    let mut word: Vec<char> = Vec::new();
    let mut i: usize = 0;
    assert(texts(out@) + words_from(s@, 0, word@) =~= words(s@));
    while i < s.len()
        invariant
            i <= s@.len(),
            texts(out@) + words_from(s@, i as int, word@) == words(s@),
        decreases s@.len() - i,
    {
        let ghost rest = words_from(s@, i as int, word@);
        if crate::build::text::char_is_ascii_whitespace(s[i]) {
            if word.len() > 0 {
                proof {
                    assert(rest == seq![word@] + words_from(s@, i + 1, Seq::empty()));
                    lemma_texts_push(out@, word);
                    assert(texts(out@).push(word@) + words_from(s@, i + 1, Seq::empty()) =~= texts(
                        out@,
                    ) + (seq![word@] + words_from(s@, i + 1, Seq::empty())));
                }
                out.push(word);
                word = Vec::new();
            } else {
                assert(word@ =~= Seq::<char>::empty());
                assert(rest == words_from(s@, i + 1, Seq::empty()));
            }
        } else {
            assert(rest == words_from(s@, i + 1, word@.push(s@[i as int])));
            word.push(s[i]);
        }
        i = i + 1;
    }
    if word.len() > 0 {
        proof {
            lemma_texts_push(out@, word);
            assert(texts(out@).push(word@) =~= texts(out@) + seq![word@]);
        }
        out.push(word);
    } else {
        assert(texts(out@) + Seq::<Seq<char>>::empty() =~= texts(out@));
    }
    out
}

/// The name of the type that the words `w` describe: the last word of
/// `const struct T`, `const T`, `struct T` or `T`. Other forms describe no
/// type.
pub open spec fn described_type(w: Seq<Seq<char>>) -> Option<Seq<char>> {
    if w.len() == 3 && w[0] == "const"@ && w[1] == "struct"@ {
        Some(w[2])
    } else if w.len() == 2 && (w[0] == "const"@ || w[0] == "struct"@) {
        Some(w[1])
    } else if w.len() == 1 {
        Some(w[0])
    } else {
        None
    }
}

/// The name of the type that the text `name` describes, if it describes
/// one.
pub fn describes_type(name: &[char]) -> (r: Option<Vec<char>>)
    ensures
        r.is_some() == described_type(words(name@)).is_some(),
        r matches Some(v) ==> described_type(words(name@)) == Some(v@),
{
    let mut parts = split_ascii_whitespace(name);
    let word_const = chars("const");
    let word_struct = chars("struct");
    let n = parts.len();
    if n == 0 || n > 3 {
        return None;
    }
    assert(texts(parts@)[0] == parts@[0]@);
    if n == 3 {
        assert(texts(parts@)[1] == parts@[1]@);
        assert(texts(parts@)[2] == parts@[2]@);
        if !(same(parts[0].as_slice(), word_const.as_slice()) && same(
            parts[1].as_slice(),
            word_struct.as_slice(),
        )) {
            return None;
        }
    } else if n == 2 {
        assert(texts(parts@)[1] == parts@[1]@);
        if !(same(parts[0].as_slice(), word_const.as_slice()) || same(
            parts[0].as_slice(),
            word_struct.as_slice(),
        )) {
            return None;
        }
    }
    assert(texts(parts@)[n - 1] == parts@[n - 1]@);
    parts.pop()
}

/// The crates whose types the bindings take from elsewhere.
pub struct NgxExternalTypes {
    crates: Vec<Crate>,
}

/// A crate as its name and the entries of its types.
pub struct CrateEntry {
    pub name: Seq<char>,
    pub items: Seq<TypeEntry>,
}

/// The first entry for `name` in the crates `c`, if one of them has it.
pub open spec fn find_type(c: Seq<CrateEntry>, name: Seq<char>) -> Option<(int, TypeEntry)>
    decreases c.len(),
{
    if c.len() == 0 {
        None
    } else {
        match find_type(c.drop_last(), name) {
            Some(found) => Some(found),
            None => if has_type(c.last().items, name) {
                Some((c.len() - 1, first_type(c.last().items, name)))
            } else {
                None
            },
        }
    }
}

/// The names of all types of the crates `c`, crate after crate.
pub open spec fn all_names(c: Seq<CrateEntry>) -> Seq<Seq<char>>
    decreases c.len(),
{
    if c.len() == 0 {
        Seq::empty()
    } else {
        all_names(c.drop_last()) + names(c.last().items)
    }
}

/// The declarations that bring the types of the crates `c` into scope.
pub open spec fn use_lines(c: Seq<CrateEntry>) -> Seq<Seq<char>> {
    Seq::new(c.len(), |i: int| use_line(c[i].name, c[i].items))
}

/// The types of the C library that the headers of the host use.
pub open spec fn libc_types() -> Seq<TypeEntry> {
    let copy = seq![DeriveTrait::Copy];
    let both = seq![DeriveTrait::Copy, DeriveTrait::Debug];
    let t = Seq::<TypeEntry>::empty();
    let t = add_type(t, "glob_t"@, copy);
    let t = add_type(t, "in6_addr"@, copy);
    let t = add_type(t, "iocb"@, copy);
    let t = add_type(t, "sem_t"@, copy);
    let t = add_type(t, "sockaddr_in"@, copy);
    let t = add_type(t, "sockaddr_in6"@, copy);
    let t = add_type(t, "stat"@, copy);
    let t = add_type(t, "DIR"@, both);
    let t = add_type(t, "cmsghdr"@, both);
    let t = add_type(t, "cpu_set_t"@, both);
    let t = add_type(t, "dirent"@, both);
    let t = add_type(t, "gid_t"@, both);
    let t = add_type(t, "in6_pktinfo"@, both);
    let t = add_type(t, "in_addr_t"@, both);
    let t = add_type(t, "in_pktinfo"@, both);
    let t = add_type(t, "in_port_t"@, both);
    let t = add_type(t, "ino_t"@, both);
    let t = add_type(t, "iovec"@, both);
    let t = add_type(t, "msghdr"@, both);
    let t = add_type(t, "off_t"@, both);
    let t = add_type(t, "pid_t"@, both);
    let t = add_type(t, "pthread_cond_t"@, both);
    let t = add_type(t, "pthread_mutex_t"@, both);
    let t = add_type(t, "sockaddr"@, both);
    let t = add_type(t, "sockaddr_un"@, both);
    let t = add_type(t, "socklen_t"@, both);
    let t = add_type(t, "time_t"@, both);
    let t = add_type(t, "tm"@, both);
    let t = add_type(t, "uid_t"@, both);
    t
}

/// The types of the TLS library that the headers of the host use. None of
/// them is known to have a trait.
pub open spec fn openssl_types() -> Seq<TypeEntry> {
    let none = Seq::<DeriveTrait>::empty();
    let t = Seq::<TypeEntry>::empty();
    let t = add_type(t, "SSL"@, none);
    let t = add_type(t, "SSL_CTX"@, none);
    let t = add_type(t, "SSL_SESSION"@, none);
    t
}

/// The crate of the C library with its types.
fn libc_crate() -> (libc: Crate)
    ensures
        libc.name() == "libc"@,
        libc.items() == libc_types(),
{
    let mut libc = Crate::new("libc");
    libc.add_type_copy("glob_t");
    libc.add_type_copy("in6_addr");
    libc.add_type_copy("iocb");
    libc.add_type_copy("sem_t");
    libc.add_type_copy("sockaddr_in");
    libc.add_type_copy("sockaddr_in6");
    libc.add_type_copy("stat");
    libc.add_type_copy_debug("DIR");
    libc.add_type_copy_debug("cmsghdr");
    libc.add_type_copy_debug("cpu_set_t");
    libc.add_type_copy_debug("dirent");
    libc.add_type_copy_debug("gid_t");
    libc.add_type_copy_debug("in6_pktinfo");
    libc.add_type_copy_debug("in_addr_t");
    libc.add_type_copy_debug("in_pktinfo");
    libc.add_type_copy_debug("in_port_t");
    libc.add_type_copy_debug("ino_t");
    libc.add_type_copy_debug("iovec");
    libc.add_type_copy_debug("msghdr");
    libc.add_type_copy_debug("off_t");
    libc.add_type_copy_debug("pid_t");
    libc.add_type_copy_debug("pthread_cond_t");
    libc.add_type_copy_debug("pthread_mutex_t");
    libc.add_type_copy_debug("sockaddr");
    libc.add_type_copy_debug("sockaddr_un");
    libc.add_type_copy_debug("socklen_t");
    libc.add_type_copy_debug("time_t");
    libc.add_type_copy_debug("tm");
    libc.add_type_copy_debug("uid_t");
    libc
}

/// The crate of the TLS library with its types.
fn openssl_crate() -> (openssl_sys: Crate)
    ensures
        openssl_sys.name() == "openssl_sys"@,
        openssl_sys.items() == openssl_types(),
{
    let mut openssl_sys = Crate::new("openssl_sys");
    openssl_sys.add_type("SSL", Vec::new());
    openssl_sys.add_type("SSL_CTX", Vec::new());
    openssl_sys.add_type("SSL_SESSION", Vec::new());
    openssl_sys
}

impl NgxExternalTypes {
    /// The crates, each with its name and its types.
    pub closed spec fn crates(&self) -> Seq<CrateEntry> {
        Seq::new(
            self.crates@.len(),
            |i: int| CrateEntry { name: self.crates@[i].name(), items: self.crates@[i].items() },
        )
    }

    /// The types that the headers of the host take from the C library and
    /// from the TLS library.
    pub fn new() -> (r: Self)
        ensures
            r.crates() == seq![
                CrateEntry { name: "libc"@, items: libc_types() },
                CrateEntry { name: "openssl_sys"@, items: openssl_types() },
            ],
    {
        let libc = libc_crate();
        let openssl_sys = openssl_crate();
        let mut crates: Vec<Crate> = Vec::new();
        crates.push(libc);
        crates.push(openssl_sys);
        let r = NgxExternalTypes { crates };
        assert(r.crates() =~= seq![
            CrateEntry { name: "libc"@, items: libc_types() },
            CrateEntry { name: "openssl_sys"@, items: openssl_types() },
        ]);
        r
    }

    /// The crate and the entry of the type `name`: the first crate that has
    /// a type of that name, by its place, and the type.
    pub fn find(&self, name: &[char]) -> (r: Option<(usize, &ExternalType)>)
        ensures
            r.is_some() == find_type(self.crates(), name@).is_some(),
            r matches Some(f) ==> find_type(self.crates(), name@) == Some((f.0 as int, f.1@)),
    {
        let ghost all = self.crates();
        let mut i: usize = 0;
        while i < self.crates.len()
            invariant
                i <= self.crates@.len(),
                all == self.crates(),
                find_type(all.take(i as int), name@) is None,
            decreases self.crates@.len() - i,
        {
            proof {
                let t = all.take(i + 1);
                assert(t.drop_last() == all.take(i as int));
                assert(t.last() == all[i as int]);
            }
            match self.crates[i].find(name) {
                Some(t) => {
                    proof {
                        lemma_find_type_prefix(all, i + 1, name@);
                    }
                    return Some((i, t));
                },
                None => {},
            }
            i = i + 1;
        }
        assert(all.take(i as int) == all);
        None
    }

    /// The names of all types, with a bar between each two: the list of
    /// the types that the generated bindings leave out.
    pub fn blocklist(&self) -> (v: Vec<char>)
        ensures
            v@ == crate::build::text::join(all_names(self.crates()), "|"@),
    {
        let ghost all = self.crates();
        let mut list: Vec<Vec<char>> = Vec::new();
        let mut i: usize = 0;
        assert(texts(list@) =~= Seq::<Seq<char>>::empty());
        while i < self.crates.len()
            invariant
                i <= self.crates@.len(),
                all == self.crates(),
                texts(list@) == all_names(all.take(i as int)),
            decreases self.crates@.len() - i,
        {
            proof {
                let t = all.take(i + 1);
                assert(t.drop_last() == all.take(i as int));
                assert(t.last() == all[i as int]);
            }
            let mut names = self.crates[i].type_names();
            let ghost before = list@;
            let ghost added = names@;
            list.append(&mut names);
            assert(texts(list@) =~= texts(before) + texts(added));
            i = i + 1;
        }
        assert(all.take(i as int) == all);
        let bar = chars("|");
        joined(&list, bar.as_slice())
    }

    /// The declarations that bring all the types into scope, one crate to
    /// a line.
    pub fn uses(&self) -> (v: Vec<char>)
        ensures
            v@ == crate::build::text::join(use_lines(self.crates()), "\n"@),
    {
        let ghost all = self.crates();
        let mut list: Vec<Vec<char>> = Vec::new();
        let mut i: usize = 0;
        while i < self.crates.len()
            invariant
                i <= self.crates@.len(),
                all == self.crates(),
                texts(list@) == use_lines(all).take(i as int),
            decreases self.crates@.len() - i,
        {
            let line = self.crates[i].uses();
            proof {
                lemma_texts_push(list@, line);
                assert(use_lines(all).take(i + 1) =~= use_lines(all).take(i as int).push(line@));
            }
            list.push(line);
            i = i + 1;
        }
        assert(use_lines(all).take(i as int) == use_lines(all));
        let newline = chars("\n");
        joined(&list, newline.as_slice())
    }

    /// Whether the type that `name` describes, which the generated
    /// bindings leave out, has `derive_trait`: yes where the table has the
    /// type with the trait, and unknown else.
    pub fn blocklisted_type_implements_trait(&self, name: &[char], derive_trait: DeriveTrait) -> (r:
        Option<ImplementsTrait>)
        requires
            described_type(words(name@)) is Some,
        ensures
            r == implements_trait(self.crates(), described_type(words(name@))->0, derive_trait),
    {
        let wanted = match describes_type(name) {
            Some(w) => w,
            None => {
                return None;
            },
        };
        match self.find(wanted.as_slice()) {
            Some((_, t)) => {
                if t.implements(derive_trait) {
                    Some(ImplementsTrait::Yes)
                } else {
                    None
                }
            },
            None => None,
        }
    }
}

/// Whether the type `name` has `derive_trait`, going by the crates `c`.
pub open spec fn implements_trait(c: Seq<CrateEntry>, name: Seq<char>, derive_trait: DeriveTrait) -> Option<
    ImplementsTrait,
> {
    match find_type(c, name) {
        Some((_, t)) => if t.traits.contains(derive_trait) {
            Some(ImplementsTrait::Yes)
        } else {
            None
        },
        None => None,
    }
}

/// A type found in the first crates is the type found in all crates.
pub proof fn lemma_find_type_prefix(c: Seq<CrateEntry>, k: int, name: Seq<char>)
    requires
        0 <= k <= c.len(),
        find_type(c.take(k), name) is Some,
    ensures
        find_type(c, name) == find_type(c.take(k), name),
    decreases c.len() - k,
{
    if k < c.len() {
        let t = c.take(k + 1);
        assert(t.drop_last() == c.take(k));
        lemma_find_type_prefix(c, k + 1, name);
    } else {
        assert(c.take(k) == c);
    }
}

} // verus!
