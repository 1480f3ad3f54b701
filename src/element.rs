use vstd::prelude::*;

use crate::attr::{is_digit, is_digit_run, decimal_value, signed_text_value, unsigned_text_value, FromAttr};
use crate::error::{BadAttr, Error, NoAttr};

verus! {

/// Namespace under which every unqualified element lookup is made.
pub const DEFAULT_NS: &'static str = "http://schemas.openxmlformats.org/spreadsheetml/2006/main";

#[derive(Debug, PartialEq, Eq)]
/// An XML element: local name, namespace, attributes (a parsed document
/// gives them sorted by name) and child elements in document order.
pub struct Element {
    pub name: String,
    pub namespace: String,
    pub attributes: Vec<(String, String)>,
    pub children: Vec<Element>,
}

/// Whether `e` has local name `name` in namespace `ns`.
pub open spec fn is_named(e: Element, name: Seq<char>, ns: Seq<char>) -> bool {
    e.name@ == name && e.namespace@ == ns
}

/// The first element of `s` named `name` in `ns`, if any.
pub open spec fn first_named(s: Seq<Element>, name: Seq<char>, ns: Seq<char>) -> Option<Element>
    decreases s.len(),
{
    if s.len() == 0 {
        None
    } else if is_named(s[0], name, ns) {
        Some(s[0])
    } else {
        first_named(s.drop_first(), name, ns)
    }
}

/// The first direct child of `e` named `name` in `ns`, if any.
pub open spec fn child_spec(e: Element, name: Seq<char>, ns: Seq<char>) -> Option<Element> {
    first_named(e.children@, name, ns)
}

/// The text of the first attribute of `e` called `name`, if any.
pub open spec fn attr_spec(e: Element, name: Seq<char>) -> Option<Seq<char>> {
    first_attr(e.attributes@, name)
}

/// The value of the first pair of `s` whose key is `name`, if any.
pub open spec fn first_attr(s: Seq<(String, String)>, name: Seq<char>) -> Option<Seq<char>>
    decreases s.len(),
{
    if s.len() == 0 {
        None
    } else if s[0].0@ == name {
        Some(s[0].1@)
    } else {
        first_attr(s.drop_first(), name)
    }
}

/// The segments of `s` between the `/` separators, empty ones included.
pub open spec fn split_on_slash(s: Seq<char>) -> Seq<Seq<char>>
    decreases s.len(),
{
    if s.len() == 0 {
        seq![Seq::empty()]
    } else {
        let r = split_on_slash(s.drop_last());
        if s.last() == '/' {
            r.push(Seq::empty())
        } else {
            r.update(r.len() - 1, r.last().push(s.last()))
        }
    }
}

/// Walks from `e` through the children named by `segs` in the default namespace,
/// skipping empty segments; fails with the first segment that has no match.
pub open spec fn resolve(e: Element, segs: Seq<Seq<char>>) -> Result<Element, Seq<char>>
    decreases segs.len(),
{
    if segs.len() == 0 {
        Ok(e)
    } else if segs[0].len() == 0 {
        resolve(e, segs.drop_first())
    } else {
        match child_spec(e, segs[0], DEFAULT_NS@) {
            Some(c) => resolve(c, segs.drop_first()),
            None => Err(segs[0]),
        }
    }
}

/// Relies on `str::split`: the pieces of `path` between the `/` characters, in order.
#[verifier::external_body]
fn split_path(path: &str) -> (r: Vec<String>)
    ensures
        r@.map_values(|p: String| p@) == split_on_slash(path@),
{
    path.split('/').map(|p| p.to_string()).collect()
}

proof fn lemma_first_attr_step(s: Seq<(String, String)>, i: int, name: Seq<char>)
    requires
        0 <= i < s.len(),
        s[i].0@ != name,
    ensures
        first_attr(s.subrange(i, s.len() as int), name) == first_attr(
            s.subrange(i + 1, s.len() as int),
            name,
        ),
{
    assert(s.subrange(i, s.len() as int).drop_first() =~= s.subrange(i + 1, s.len() as int));
}

proof fn lemma_first_named_found(s: Seq<Element>, name: Seq<char>, ns: Seq<char>)
    ensures
        first_named(s, name, ns) matches Some(c) ==> is_named(c, name, ns),
        first_named(s, name, ns) is None <==> forall|i: int|
            0 <= i < s.len() ==> !#[trigger] is_named(s[i], name, ns),
    decreases s.len(),
{
    if s.len() > 0 {
        lemma_first_named_found(s.drop_first(), name, ns);
        if first_named(s, name, ns) is None {
            assert forall|i: int| 0 <= i < s.len() implies !#[trigger] is_named(s[i], name, ns) by {
                if i > 0 {
                    assert(s[i] == s.drop_first()[i - 1]);
                }
            }
        }
        if forall|i: int| 0 <= i < s.len() ==> !#[trigger] is_named(s[i], name, ns) {
            assert(!is_named(s[0], name, ns));
            assert forall|i: int| 0 <= i < s.drop_first().len() implies !#[trigger] is_named(
                s.drop_first()[i],
                name,
                ns,
            ) by {
                assert(s.drop_first()[i] == s[i + 1]);
            }
        }
    }
}

/// One lookup step of a path: the child named `seg`, or `seg` as the failure.
pub open spec fn step(e: Element, seg: Seq<char>) -> Result<Element, Seq<char>> {
    match child_spec(e, seg, DEFAULT_NS@) {
        Some(c) => Ok(c),
        None => Err(seg),
    }
}

/// Continues a path lookup from the outcome `r` of an earlier one.
pub open spec fn then_step(r: Result<Element, Seq<char>>, seg: Seq<char>) -> Result<Element, Seq<char>> {
    match r {
        Ok(e) => step(e, seg),
        Err(x) => Err(x),
    }
}

proof fn lemma_split_len(s: Seq<char>)
    ensures
        split_on_slash(s).len() >= 1,
    decreases s.len(),
{
    if s.len() > 0 {
        lemma_split_len(s.drop_last());
    }
}

proof fn lemma_split_no_slash(s: Seq<char>)
    requires
        forall|i: int| 0 <= i < s.len() ==> s[i] != '/',
    ensures
        split_on_slash(s) == seq![s],
    decreases s.len(),
{
    if s.len() == 0 {
        assert(s =~= Seq::<char>::empty());
    } else {
        lemma_split_no_slash(s.drop_last());
        assert(s.last() != '/');
        assert(s.drop_last().push(s.last()) =~= s);
        assert(seq![s.drop_last()].update(0, s.drop_last().push(s.last())) =~= seq![s]);
    }
}

proof fn lemma_split_concat(s: Seq<char>, t: Seq<char>)
    ensures
        split_on_slash(s + seq!['/'] + t) == split_on_slash(s) + split_on_slash(t),
    decreases t.len(),
{
    let u = s + seq!['/'] + t;
    if t.len() == 0 {
        assert(u.drop_last() =~= s);
        assert(split_on_slash(s).push(Seq::empty()) =~= split_on_slash(s) + seq![Seq::<char>::empty()]);
    } else {
        lemma_split_concat(s, t.drop_last());
        assert(u.drop_last() =~= s + seq!['/'] + t.drop_last());
        assert(u.last() == t.last());
        let a = split_on_slash(s);
        let b = split_on_slash(t.drop_last());
        lemma_split_len(t.drop_last());
        if t.last() == '/' {
            assert((a + b).push(Seq::empty()) =~= a + b.push(Seq::empty()));
        } else {
            let ab = a + b;
            assert(ab.last() == b.last());
            assert(ab.update(ab.len() - 1, ab.last().push(t.last())) =~= a + b.update(
                b.len() - 1,
                b.last().push(t.last()),
            ));
        }
    }
}

proof fn lemma_resolve_append(e: Element, p: Seq<Seq<char>>, q: Seq<Seq<char>>)
    ensures
        resolve(e, p + q) == match resolve(e, p) {
            Ok(m) => resolve(m, q),
            Err(x) => Err(x),
        },
    decreases p.len(),
{
    if p.len() == 0 {
        assert(p + q =~= q);
    } else {
        assert((p + q).drop_first() =~= p.drop_first() + q);
        assert((p + q)[0] == p[0]);
        if p[0].len() == 0 {
            lemma_resolve_append(e, p.drop_first(), q);
        } else {
            match child_spec(e, p[0], DEFAULT_NS@) {
                Some(c) => lemma_resolve_append(c, p.drop_first(), q),
                None => {},
            }
        }
    }
}

proof fn lemma_resolve_single(e: Element, seg: Seq<char>)
    requires
        seg.len() > 0,
    ensures
        resolve(e, seq![seg]) == step(e, seg),
{
    reveal_with_fuel(resolve, 2);
    assert(seq![seg].drop_first() =~= Seq::<Seq<char>>::empty());
}

/// A path of three non-empty names `a/b/c` resolves as three single-child
/// lookups made one after another, and a failure names the first of the three
/// that has no match.
pub proof fn path_lookup_chains(e: Element, a: Seq<char>, b: Seq<char>, c: Seq<char>)
    requires
        a.len() > 0,
        b.len() > 0,
        c.len() > 0,
        forall|i: int| 0 <= i < a.len() ==> a[i] != '/',
        forall|i: int| 0 <= i < b.len() ==> b[i] != '/',
        forall|i: int| 0 <= i < c.len() ==> c[i] != '/',
    ensures
        e.path_spec(a + seq!['/'] + b + seq!['/'] + c) == then_step(then_step(step(e, a), b), c),
{
    lemma_split_concat(a + seq!['/'] + b, c);
    lemma_split_concat(a, b);
    lemma_split_no_slash(a);
    lemma_split_no_slash(b);
    lemma_split_no_slash(c);
    let segs = seq![a] + seq![b] + seq![c];
    assert(split_on_slash(a + seq!['/'] + b + seq!['/'] + c) == segs);
    lemma_resolve_append(e, seq![a] + seq![b], seq![c]);
    lemma_resolve_append(e, seq![a], seq![b]);
    lemma_resolve_single(e, a);
    match step(e, a) {
        Ok(x) => {
            lemma_resolve_single(x, b);
            match step(x, b) {
                Ok(y) => lemma_resolve_single(y, c),
                Err(_) => {},
            }
        },
        Err(_) => {},
    }
}

/// Looking a path up in two parts, `p` and then `q` from where `p` led, gives
/// what looking up `p/q` at once gives.
pub proof fn path_lookup_composes(e: Element, p: Seq<char>, q: Seq<char>)
    ensures
        e.path_spec(p + seq!['/'] + q) == match e.path_spec(p) {
            Ok(m) => m.path_spec(q),
            Err(x) => Err(x),
        },
{
    lemma_split_concat(p, q);
    lemma_resolve_append(e, split_on_slash(p), split_on_slash(q));
}

proof fn lemma_first_named_step(s: Seq<Element>, i: int, name: Seq<char>, ns: Seq<char>)
    requires
        0 <= i < s.len(),
        !is_named(s[i], name, ns),
    ensures
        first_named(s.subrange(i, s.len() as int), name, ns)
            == first_named(s.subrange(i + 1, s.len() as int), name, ns),
{
    assert(s.subrange(i, s.len() as int).drop_first() =~= s.subrange(i + 1, s.len() as int));
}

impl Element {
    /// The first direct child named `name` in namespace `ns`.
    pub fn get_child(&self, name: &str, ns: &str) -> (r: Option<&Element>)
        ensures
            r matches Some(c) ==> child_spec(*self, name@, ns@) == Some(*c),
            r is None ==> child_spec(*self, name@, ns@) is None,
            r matches Some(c) ==> c.name@ == name@ && c.namespace@ == ns@,
            r is None <==> forall|i: int|
                0 <= i < self.children@.len() ==> !#[trigger] is_named(self.children@[i], name@, ns@),
    {
        proof {
            lemma_first_named_found(self.children@, name@, ns@);
        }
        let name_s = name.to_string();
        let ns_s = ns.to_string();
        let mut i: usize = 0;
        proof {
            assert(self.children@.subrange(0, self.children@.len() as int) =~= self.children@);
        }
        while i < self.children.len()
            invariant
                i <= self.children@.len(),
                name_s@ == name@,
                ns_s@ == ns@,
                first_named(self.children@.subrange(i as int, self.children@.len() as int), name@, ns@)
                    == child_spec(*self, name@, ns@),
            decreases self.children@.len() - i,
        {
            let c = &self.children[i];
            if c.name == name_s && c.namespace == ns_s {
                return Some(c);
            }
            proof {
                lemma_first_named_step(self.children@, i as int, name@, ns@);
            }
            i = i + 1;
        }
        None
    }

    /// The text of the first attribute called `name`.
    pub fn attr(&self, name: &str) -> (r: Option<&str>)
        ensures
            match attr_spec(*self, name@) {
                Some(v) => r matches Some(t) && t@ == v,
                None => r is None,
            },
    {
        let name_s = name.to_string();
        let mut i: usize = 0;
        proof {
            assert(self.attributes@.subrange(0, self.attributes@.len() as int) =~= self.attributes@);
        }
        while i < self.attributes.len()
            invariant
                i <= self.attributes@.len(),
                name_s@ == name@,
                first_attr(self.attributes@.subrange(i as int, self.attributes@.len() as int), name@)
                    == attr_spec(*self, name@),
            decreases self.attributes@.len() - i,
        {
            let pair = &self.attributes[i];
            if pair.0 == name_s {
                return Some(pair.1.as_str());
            }
            proof {
                lemma_first_attr_step(self.attributes@, i as int, name@);
            }
            i = i + 1;
        }
        None
    }

}

/// The outcome that `parse_attr` promises when it converts the attribute
/// `name` of `e` to `T`.
pub open spec fn parse_attr_spec<T: FromAttr>(e: Element, name: Seq<char>, r: Result<T, Error>) -> bool {
    match e.attr_text_spec(name) {
        None => r matches Err(Error::NoAttr(na)) && na.attr_name@ == name
            && na.element_name@ == e.name_spec(),
        Some(v) => match T::attr_value_spec(v) {
            Some(x) => r == Ok::<T, Error>(x),
            None => r matches Err(Error::BadAttr(b)) && b.name@ == name && b.value@ == v
                && b.parse_to@ == T::type_label_spec() && b.source@ == T::attr_error_spec(v),
        },
    }
}

/// Navigation and typed attribute extraction over an XML tree node.
pub trait ElementUtils: Sized {
    /// The node's local name.
    spec fn name_spec(&self) -> Seq<char>;

    /// The first direct child named `name` in the default namespace, if any.
    spec fn default_child_spec(&self, name: Seq<char>) -> Option<Self>;

    /// Where `path` leads from this node, or the first segment without a match.
    spec fn path_spec(&self, path: Seq<char>) -> Result<Self, Seq<char>>;

    /// The text of the attribute `name`, if the node has it.
    spec fn attr_text_spec(&self, name: Seq<char>) -> Option<Seq<char>>;

    /// The first direct child named `name` in the default namespace, or
    /// `NoElement(name)` when there is none.
    fn get_child_d_ns(&self, name: &str) -> (r: Result<&Self, Error>)
        ensures
            match r {
                Ok(c) => self.default_child_spec(name@) == Some(*c) && c.name_spec() == name@,
                Err(Error::NoElement(n)) => n@ == name@ && self.default_child_spec(name@) is None,
                Err(_) => false,
            },
    ;

    /// Follows `path`, a `/`-separated list of child names, from this node, one
    /// default-namespace lookup per non-empty segment, left to right; fails with
    /// `NoElement` naming the first segment that has no match.
    fn get_child_recursive(&self, path: &str) -> (r: Result<&Self, Error>)
        ensures
            match self.path_spec(path@) {
                Ok(d) => r matches Ok(c) && *c == d,
                Err(seg) => r matches Err(Error::NoElement(n)) && n@ == seg,
            },
    ;

    /// Converts the attribute `name` to `T`: `NoAttr` when it is absent,
    /// `BadAttr` when its text does not convert.
    fn parse_attr<T: FromAttr>(&self, name: &str) -> (r: Result<T, Error>)
        ensures
            match self.attr_text_spec(name@) {
                None => r matches Err(Error::NoAttr(na)) && na.attr_name@ == name@
                    && na.element_name@ == self.name_spec(),
                Some(v) => match T::attr_value_spec(v) {
                    Some(x) => r == Ok::<T, Error>(x),
                    None => r matches Err(Error::BadAttr(b)) && b.name@ == name@ && b.value@ == v
                        && b.parse_to@ == T::type_label_spec() && b.source@ == T::attr_error_spec(v),
                },
            },
    ;
}

impl ElementUtils for Element {
    open spec fn name_spec(&self) -> Seq<char> {
        self.name@
    }

    open spec fn default_child_spec(&self, name: Seq<char>) -> Option<Element> {
        child_spec(*self, name, DEFAULT_NS@)
    }

    open spec fn path_spec(&self, path: Seq<char>) -> Result<Element, Seq<char>> {
        resolve(*self, split_on_slash(path))
    }

    open spec fn attr_text_spec(&self, name: Seq<char>) -> Option<Seq<char>> {
        attr_spec(*self, name)
    }

    fn get_child_d_ns(&self, name: &str) -> (r: Result<&Element, Error>) {
        match self.get_child(name, DEFAULT_NS) {
            Some(c) => Ok(c),
            None => Err(Error::NoElement(name.to_string())),
        }
    }

    fn get_child_recursive(&self, path: &str) -> (r: Result<&Element, Error>) {
        let segs = split_path(path);
        let ghost pieces = segs@.map_values(|p: String| p@);
        let mut element: &Element = self;
        let mut i: usize = 0;
        proof {
            assert(pieces.subrange(0, pieces.len() as int) =~= pieces);
        }
        while i < segs.len()
            invariant
                i <= segs@.len(),
                pieces == segs@.map_values(|p: String| p@),
                pieces == split_on_slash(path@),
                resolve(*element, pieces.subrange(i as int, pieces.len() as int))
                    == resolve(*self, pieces),
            decreases segs@.len() - i,
        {
            let seg = segs[i].as_str();
            proof {
                assert(pieces.subrange(i as int, pieces.len() as int).drop_first()
                    =~= pieces.subrange(i + 1, pieces.len() as int));
                assert(pieces[i as int] == seg@);
            }
            if !seg.is_empty() {
                element = element.get_child_d_ns(seg)?;
            }
            i = i + 1;
        }
        Ok(element)
    }

    fn parse_attr<T: FromAttr>(&self, name: &str) -> (r: Result<T, Error>) {
        let value = match self.attr(name) {
            Some(v) => v,
            None => return Err(Error::NoAttr(NoAttr::new(name, self.name.as_str()))),
        };
        match T::from_attr(value) {
            Ok(x) => Ok(x),
            Err(e) => Err(Error::BadAttr(BadAttr::new::<T>(name, value, e))),
        }
    }
}


proof fn lemma_forty_two()
    ensures
        unsigned_text_value(seq!['4', '2']) == Some(42nat),
        signed_text_value(seq!['4', '2']) == Some(42int),
        unsigned_text_value(seq!['a', 'b', 'c']) is None,
        signed_text_value(seq!['a', 'b', 'c']) is None,
{
    let d = seq!['4', '2'];
    assert(is_digit(d[0]) && is_digit(d[1]));
    assert(is_digit_run(d));
    assert(d.drop_last() =~= seq!['4']);
    assert(d.drop_last().drop_last() =~= Seq::<char>::empty());
    reveal_with_fuel(decimal_value, 3);
    assert(decimal_value(d) == 42);
    assert(!is_digit(seq!['a', 'b', 'c'][0]));
}

/// An attribute whose text is `42`, converted to `u32`, gives 42.
pub proof fn attribute_forty_two_as_u32(e: Element, name: Seq<char>, r: Result<u32, Error>)
    requires
        attr_spec(e, name) == Some(seq!['4', '2']),
        parse_attr_spec::<u32>(e, name, r),
    ensures
        r == Ok::<u32, Error>(42),
{
    lemma_forty_two();
}

/// An attribute whose text is `42`, converted to `i64`, gives 42.
pub proof fn attribute_forty_two_as_i64(e: Element, name: Seq<char>, r: Result<i64, Error>)
    requires
        attr_spec(e, name) == Some(seq!['4', '2']),
        parse_attr_spec::<i64>(e, name, r),
    ensures
        r == Ok::<i64, Error>(42),
{
    lemma_forty_two();
}

/// An attribute whose text is `abc`, converted to `u32`, fails with `BadAttr`
/// naming the attribute, the text `abc` and the type.
pub proof fn attribute_non_numeric_as_u32(e: Element, name: Seq<char>, r: Result<u32, Error>)
    requires
        attr_spec(e, name) == Some(seq!['a', 'b', 'c']),
        parse_attr_spec::<u32>(e, name, r),
    ensures
        r matches Err(Error::BadAttr(b)) && b.name@ == name && b.value@ == seq!['a', 'b', 'c']
            && b.parse_to@ == seq!['u', '3', '2'],
{
    lemma_forty_two();
}

/// An attribute whose text is `abc`, converted to `i64`, fails with `BadAttr`
/// naming the attribute, the text `abc` and the type.
pub proof fn attribute_non_numeric_as_i64(e: Element, name: Seq<char>, r: Result<i64, Error>)
    requires
        attr_spec(e, name) == Some(seq!['a', 'b', 'c']),
        parse_attr_spec::<i64>(e, name, r),
    ensures
        r matches Err(Error::BadAttr(b)) && b.name@ == name && b.value@ == seq!['a', 'b', 'c']
            && b.parse_to@ == seq!['i', '6', '4'],
{
    lemma_forty_two();
}

} // verus!
