//! The XML side of `shared_prefs` boolean rules: the event stream that
//! quick-xml reads from a preferences file, the lookup of one `<boolean>`
//! entry and its rewrite.
use vstd::prelude::*;

use vstd::utf8::{decode_utf8, encode_utf8, valid_utf8};

use quick_xml::events::Event::{Empty, Eof, Start};
use quick_xml::{Reader, Writer};

use crate::profiles::error::{ProfileError, ProfileErrorView};
use crate::text;

verus! {

/// The markup of a tag read by quick-xml: its name and its attributes, each
/// attribute as raw key and value bytes or the error that stopped parsing.
pub struct XmlTag {
    /// Whether the tag closes itself (`<x/>`).
    pub empty: bool,
    pub name: Vec<u8>,
    pub attrs: Vec<Result<(Vec<u8>, Vec<u8>), String>>,
}

/// One event of the reader: the bytes that quick-xml's writer emits for it,
/// and the tag when it is a start or an empty tag.
pub struct XmlEvent {
    pub written: Vec<u8>,
    pub tag: Option<XmlTag>,
}

/// One step of the reader: an event, the end of the input, or the parse error.
pub enum XmlRead {
    Event(XmlEvent),
    End,
    Failed(String),
}

pub struct XmlTagView {
    pub empty: bool,
    pub name: Seq<u8>,
    pub attrs: Seq<Result<(Seq<u8>, Seq<u8>), Seq<char>>>,
}

pub struct XmlEventView {
    pub written: Seq<u8>,
    pub tag: Option<XmlTagView>,
}

pub enum XmlReadView {
    Event(XmlEventView),
    End,
    Failed(Seq<char>),
}

pub open spec fn attr_view(a: Result<(Vec<u8>, Vec<u8>), String>) -> Result<(Seq<u8>, Seq<u8>), Seq<char>> {
    match a {
        Ok((k, v)) => Ok((k@, v@)),
        Err(e) => Err(e@),
    }
}

impl View for XmlTag {
    type V = XmlTagView;

    open spec fn view(&self) -> XmlTagView {
        XmlTagView {
            empty: self.empty,
            name: self.name@,
            attrs: self.attrs@.map_values(|a: Result<(Vec<u8>, Vec<u8>), String>| attr_view(a)),
        }
    }
}

impl View for XmlEvent {
    type V = XmlEventView;

    open spec fn view(&self) -> XmlEventView {
        XmlEventView {
            written: self.written@,
            tag: match self.tag {
                Some(t) => Some(t@),
                None => None,
            },
        }
    }
}

impl View for XmlRead {
    type V = XmlReadView;

    open spec fn view(&self) -> XmlReadView {
        match self {
            XmlRead::Event(e) => XmlReadView::Event(e@),
            XmlRead::End => XmlReadView::End,
            XmlRead::Failed(m) => XmlReadView::Failed(m@),
        }
    }
}

/// A reader's steps: events, then exactly one end or error.
pub open spec fn read_stream(s: Seq<XmlReadView>) -> bool {
    &&& s.len() > 0
    &&& !(s.last() is Event)
    &&& forall|i: int| 0 <= i < s.len() - 1 ==> #[trigger] s[i] is Event
}

#[verifier::external_type_specification]
#[verifier::external_body]
#[verifier::reject_recursive_types(R)]
pub struct ExXmlReader<R>(quick_xml::Reader<R>);

/// The steps that quick-xml's reader takes over `content`, from the first
/// event to the end of the input or the first error.
pub uninterp spec fn xml_parse(content: Seq<u8>) -> Seq<XmlReadView>;

/// The steps a reader has not taken yet.
pub uninterp spec fn xml_pending(reader: quick_xml::Reader<&[u8]>) -> Seq<XmlReadView>;

/// `quick_xml::Reader::from_reader` over a byte slice, with the default
/// configuration. Claimed: the reader will take the steps `xml_parse(content)`,
/// a finite run of events closed by the end of the input or an error.
#[verifier::external_body]
fn xml_reader<'a>(content: &'a [u8]) -> (r: quick_xml::Reader<&'a [u8]>)
    ensures
        xml_pending(r) == xml_parse(content@),
        read_stream(xml_pending(r)),
{
    Reader::from_reader(content)
}

/// `quick_xml::Reader::read_event`, with the event's written form taken from
/// `quick_xml::Writer::write_event` and a tag's attributes from
/// `BytesStart::attributes`. Claimed: it takes the reader's next step.
#[verifier::external_body]
fn xml_next<'a>(reader: &mut quick_xml::Reader<&'a [u8]>) -> (r: XmlRead)
    requires
        xml_pending(*old(reader)).len() > 0,
    ensures
        r@ == xml_pending(*old(reader))[0],
        xml_pending(*final(reader)) == xml_pending(*old(reader)).drop_first(),
{
    let event = match reader.read_event() {
        Ok(Eof) => return XmlRead::End,
        Ok(event) => event,
        Err(error) => return XmlRead::Failed(error.to_string()),
    };
    let tag = match &event {
        Start(e) | Empty(e) => Some(XmlTag { empty: matches!(event, Empty(_)), name: e.name().0.to_vec(),
            attrs: e.attributes().map(|a| a.map(|a| (a.key.0.to_vec(), a.value.to_vec())).map_err(|e| e.to_string())).collect() }),
        _ => None,
    };
    let mut written = Vec::new();
    let _ = Writer::new(&mut written).write_event(event);
    XmlRead::Event(XmlEvent { written, tag })
}

pub open spec fn reads_view(v: Seq<XmlRead>) -> Seq<XmlReadView> {
    v.map_values(|r: XmlRead| r@)
}

/// Every step quick-xml's reader takes over `content`.
pub fn xml_steps(content: &[u8]) -> (r: Vec<XmlRead>)
    ensures
        reads_view(r@) == xml_parse(content@),
{
    let mut reader = xml_reader(content);
    let ghost all = xml_parse(content@);
    let mut steps: Vec<XmlRead> = Vec::new();
    loop
        invariant
            all == xml_parse(content@),
            read_stream(all),
            reads_view(steps@) + xml_pending(reader) == all,
            xml_pending(reader).len() > 0,
            forall|i: int| 0 <= i < steps@.len() ==> #[trigger] steps@[i]@ is Event,
        decreases xml_pending(reader).len(),
    {
        let ghost before = xml_pending(reader);
        let ghost done = reads_view(steps@);
        let step = xml_next(&mut reader);
        let terminal = match &step {
            XmlRead::Event(_) => false,
            _ => true,
        };
        steps.push(step);
        assert(reads_view(steps@) =~= done.push(before[0]));
        assert(done + before == all);
        assert(all[done.len() as int] == before[0]);
        if terminal {
            assert(before.len() == 1) by {
                if before.len() > 1 {
                    assert(all[done.len() as int] is Event);
                }
            }
            assert(reads_view(steps@) =~= all);
            return steps;
        }
        assert(before.len() > 1) by {
            if before.len() == 1 {
                assert(all.last() == before[0]);
            }
        }
        assert(reads_view(steps@) + xml_pending(reader) =~= all);
    }
}


/// The UTF-8 bytes of a text.
pub open spec fn utf8(s: Seq<char>) -> Seq<u8> {
    encode_utf8(s)
}

/// An event's tag when it is a `<boolean>` tag.
pub open spec fn boolean_tag(e: XmlEventView) -> Option<XmlTagView> {
    match e.tag {
        Some(t) => if t.name == utf8("boolean"@) {
            Some(t)
        } else {
            None
        },
        None => None,
    }
}

/// The value of the first attribute named `key`, reading the attributes in
/// order from index `i` and stopping at the first parse error.
pub open spec fn attr_lookup(
    attrs: Seq<Result<(Seq<u8>, Seq<u8>), Seq<char>>>,
    i: int,
    key: Seq<u8>,
) -> Result<Option<Seq<u8>>, Seq<char>>
    decreases attrs.len() - i,
{
    if i < 0 || i >= attrs.len() {
        Ok(None)
    } else {
        match attrs[i] {
            Err(m) => Err(m),
            Ok((k, v)) => if k == key {
                Ok(Some(v))
            } else {
                attr_lookup(attrs, i + 1, key)
            },
        }
    }
}

/// An attribute error; it names no file.
pub open spec fn attr_error(reason: Seq<char>) -> ProfileErrorView {
    ProfileErrorView::Xml { path: Seq::empty(), reason }
}

/// Whether the tag's `name` attribute is `key`.
pub open spec fn name_matches(t: XmlTagView, key: Seq<char>) -> Result<bool, ProfileErrorView> {
    match attr_lookup(t.attrs, 0, utf8("name"@)) {
        Err(m) => Err(attr_error(m)),
        Ok(None) => Ok(false),
        Ok(Some(v)) => Ok(v == utf8(key)),
    }
}

/// What `String::from_utf8_lossy` makes of some bytes.
pub uninterp spec fn utf8_lossy(bytes: Seq<u8>) -> Seq<char>;

/// The boolean of a tag's `value` attribute: `true` or `false`, nothing else.
pub open spec fn bool_value_of(t: XmlTagView) -> Result<bool, ProfileErrorView> {
    match attr_lookup(t.attrs, 0, utf8("value"@)) {
        Err(m) => Err(attr_error(m)),
        Ok(None) => Err(attr_error("missing boolean value"@)),
        Ok(Some(v)) => if v == utf8("true"@) {
            Ok(true)
        } else if v == utf8("false"@) {
            Ok(false)
        } else {
            Err(attr_error("unsupported boolean value: "@ + utf8_lossy(v)))
        },
    }
}

pub open spec fn key_not_found(path: Seq<char>, key: Seq<char>) -> ProfileErrorView {
    ProfileErrorView::Xml { path, reason: "boolean key not found: "@ + key }
}

/// Reading the steps from index `i`: the value of the first `<boolean>`
/// whose name is `key`; a parse error on the way, or the end, is an error.
pub open spec fn read_from(s: Seq<XmlReadView>, i: int, key: Seq<char>, path: Seq<char>) -> Result<
    bool,
    ProfileErrorView,
>
    decreases s.len() - i,
{
    if i < 0 || i >= s.len() {
        Err(key_not_found(path, key))
    } else {
        match s[i] {
            XmlReadView::End => Err(key_not_found(path, key)),
            XmlReadView::Failed(m) => Err(ProfileErrorView::Xml { path, reason: m }),
            XmlReadView::Event(e) => match boolean_tag(e) {
                None => read_from(s, i + 1, key, path),
                Some(t) => match name_matches(t, key) {
                    Err(x) => Err(x),
                    Ok(true) => bool_value_of(t),
                    Ok(false) => read_from(s, i + 1, key, path),
                },
            },
        }
    }
}

/// The value of the boolean `key` of a preferences file.
pub open spec fn read_bool_spec(content: Seq<u8>, key: Seq<char>, path: Seq<char>) -> Result<
    bool,
    ProfileErrorView,
> {
    read_from(xml_parse(content), 0, key, path)
}

/// ` key="value"`, as quick-xml's `BytesStart::push_attribute` appends it.
pub open spec fn attr_bytes(k: Seq<u8>, v: Seq<u8>) -> Seq<u8> {
    seq![32u8] + k + seq![61u8, 34u8] + v + seq![34u8]
}

pub open spec fn bool_text_bytes(value: bool) -> Seq<u8> {
    if value {
        utf8("true"@)
    } else {
        utf8("false"@)
    }
}

/// The attributes of a rewritten tag from index `i`: `value` takes the new
/// boolean, the others are copied; the first parse error stops it.
pub open spec fn rewritten_attrs(
    attrs: Seq<Result<(Seq<u8>, Seq<u8>), Seq<char>>>,
    i: int,
    value: bool,
) -> Result<Seq<u8>, Seq<char>>
    decreases attrs.len() - i,
{
    if i < 0 || i >= attrs.len() {
        Ok(Seq::empty())
    } else {
        match attrs[i] {
            Err(m) => Err(m),
            Ok((k, v)) => match rewritten_attrs(attrs, i + 1, value) {
                Err(m) => Err(m),
                Ok(rest) => Ok(
                    attr_bytes(
                        k,
                        if k == utf8("value"@) {
                            bool_text_bytes(value)
                        } else {
                            v
                        },
                    ) + rest,
                ),
            },
        }
    }
}

/// A `<boolean>` tag written again with `value`, as quick-xml's writer
/// wraps a start (`<...>`) or an empty (`<.../>`) tag.
pub open spec fn rewritten_tag(t: XmlTagView, value: bool) -> Result<Seq<u8>, ProfileErrorView> {
    match rewritten_attrs(t.attrs, 0, value) {
        Err(m) => Err(attr_error(m)),
        Ok(a) => Ok(
            seq![60u8] + t.name + a + if t.empty {
                seq![47u8, 62u8]
            } else {
                seq![62u8]
            },
        ),
    }
}

/// One event written back: the `<boolean>` named `key` is rewritten, every
/// other event is written as it was read.
pub open spec fn rewrite_event(e: XmlEventView, key: Seq<char>, value: bool) -> Result<
    Seq<u8>,
    ProfileErrorView,
> {
    match boolean_tag(e) {
        None => Ok(e.written),
        Some(t) => match name_matches(t, key) {
            Err(x) => Err(x),
            Ok(false) => Ok(e.written),
            Ok(true) => rewritten_tag(t, value),
        },
    }
}

/// Writing the steps back from index `i`.
pub open spec fn rewrite_from(
    s: Seq<XmlReadView>,
    i: int,
    key: Seq<char>,
    value: bool,
    path: Seq<char>,
) -> Result<Seq<u8>, ProfileErrorView>
    decreases s.len() - i,
{
    if i < 0 || i >= s.len() {
        Ok(Seq::empty())
    } else {
        match s[i] {
            XmlReadView::End => Ok(Seq::empty()),
            XmlReadView::Failed(m) => Err(ProfileErrorView::Xml { path, reason: m }),
            XmlReadView::Event(e) => match rewrite_event(e, key, value) {
                Err(x) => Err(x),
                Ok(b) => match rewrite_from(s, i + 1, key, value, path) {
                    Err(x) => Err(x),
                    Ok(rest) => Ok(b + rest),
                },
            },
        }
    }
}

/// A preferences file with the boolean `key` set to `value`.
pub open spec fn rewrite_bool_spec(content: Seq<u8>, key: Seq<char>, value: bool, path: Seq<char>) -> Result<
    Seq<u8>,
    ProfileErrorView,
> {
    rewrite_from(xml_parse(content), 0, key, value, path)
}

/// `String::from_utf8_lossy`. Claimed: valid UTF-8 comes out as the text it
/// encodes; what it makes of other bytes is only named.
#[verifier::external_body]
fn lossy_text(bytes: &[u8]) -> (r: String)
    ensures
        r@ == utf8_lossy(bytes@),
        valid_utf8(bytes@) ==> r@ == decode_utf8(bytes@),
{
    String::from_utf8_lossy(bytes).into_owned()
}

/// Whether two byte strings are equal.
pub fn bytes_eq(a: &[u8], b: &[u8]) -> (r: bool)
    ensures
        r == (a@ == b@),
{
    if a.len() != b.len() {
        return false;
    }
    let mut i: usize = 0;
    while i < a.len()
        invariant
            a.len() == b.len(),
            i <= a.len(),
            forall|j: int| 0 <= j < i ==> a@[j] == b@[j],
        decreases a.len() - i,
    {
        if a[i] != b[i] {
            return false;
        }
        i += 1;
    }
    assert(a@ =~= b@);
    true
}

pub open spec fn attrs_view(v: Seq<Result<(Vec<u8>, Vec<u8>), String>>) -> Seq<Result<(Seq<u8>, Seq<u8>), Seq<char>>> {
    v.map_values(|a: Result<(Vec<u8>, Vec<u8>), String>| attr_view(a))
}

/// The index of the first attribute named `key`, or of the first parse
/// error before it.
fn find_attr(attrs: &Vec<Result<(Vec<u8>, Vec<u8>), String>>, key: &[u8]) -> (r: Result<
    Option<usize>,
    usize,
>)
    ensures
        match (r, attr_lookup(attrs_view(attrs@), 0, key@)) {
            (Ok(None), Ok(None)) => true,
            (Ok(Some(i)), Ok(Some(v))) => i < attrs@.len() && (attrs@[i as int] matches Ok((_, w)) && w@ == v),
            (Err(i), Err(m)) => i < attrs@.len() && (attrs@[i as int] matches Err(e) && e@ == m),
            _ => false,
        },
{
    let ghost view = attrs_view(attrs@);
    let mut i: usize = 0;
    while i < attrs.len()
        invariant
            i <= attrs@.len(),
            view == attrs_view(attrs@),
            attr_lookup(view, 0, key@) == attr_lookup(view, i as int, key@),
        decreases attrs.len() - i,
    {
        match &attrs[i] {
            Err(_) => {
                return Err(i);
            },
            Ok((k, _)) => {
                if bytes_eq(k.as_slice(), key) {
                    return Ok(Some(i));
                }
            },
        }
        i += 1;
    }
    Ok(None)
}

/// Whether the tag's `name` attribute is `key`.
fn bool_name_matches(t: &XmlTag, key: &str) -> (r: Result<bool, ProfileError>)
    ensures
        match (r, name_matches(t@, key@)) {
            (Ok(a), Ok(b)) => a == b,
            (Err(e), Err(f)) => e@ == f,
            _ => false,
        },
{
    proof {
        reveal_strlit("");
        assert(""@ =~= Seq::<char>::empty());
        assert(t@.attrs =~= attrs_view(t.attrs@));
    }
    match find_attr(&t.attrs, "name".as_bytes()) {
        Err(i) => match &t.attrs[i] {
            Err(m) => Err(ProfileError::xml("", m.clone())),
            Ok(_) => Ok(false),
        },
        Ok(None) => Ok(false),
        Ok(Some(i)) => match &t.attrs[i] {
            Ok((_, v)) => Ok(bytes_eq(v.as_slice(), key.as_bytes())),
            Err(_) => Ok(false),
        },
    }
}

/// The boolean of a tag's `value` attribute.
fn bool_value(t: &XmlTag) -> (r: Result<bool, ProfileError>)
    ensures
        match (r, bool_value_of(t@)) {
            (Ok(a), Ok(b)) => a == b,
            (Err(e), Err(f)) => e@ == f,
            _ => false,
        },
{
    proof {
        reveal_strlit("");
        assert(""@ =~= Seq::<char>::empty());
        assert(t@.attrs =~= attrs_view(t.attrs@));
    }
    match find_attr(&t.attrs, "value".as_bytes()) {
        Err(i) => match &t.attrs[i] {
            Err(m) => Err(ProfileError::xml("", m.clone())),
            Ok(_) => Ok(false),
        },
        Ok(None) => Err(ProfileError::xml("", "missing boolean value".to_owned())),
        Ok(Some(i)) => match &t.attrs[i] {
            Ok((_, v)) => {
                if bytes_eq(v.as_slice(), "true".as_bytes()) {
                    Ok(true)
                } else if bytes_eq(v.as_slice(), "false".as_bytes()) {
                    Ok(false)
                } else {
                    let shown = lossy_text(v.as_slice());
                    Err(ProfileError::xml("", text::concat("unsupported boolean value: ", shown.as_str())))
                }
            },
            Err(_) => Ok(false),
        },
    }
}

/// The tag of an event when it is a `<boolean>` tag.
fn is_boolean(e: &XmlEvent) -> (r: Option<&XmlTag>)
    ensures
        match (r, boolean_tag(e@)) {
            (Some(t), Some(u)) => t@ == u,
            (None, None) => true,
            _ => false,
        },
{
    match &e.tag {
        Some(t) => {
            if bytes_eq(t.name.as_slice(), "boolean".as_bytes()) {
                Some(t)
            } else {
                None
            }
        },
        None => None,
    }
}

/// The value of the boolean `key` of a preferences file; `path` names the
/// file in errors.
pub fn read_bool_value(content: &[u8], key: &str, path: &str) -> (r: Result<bool, ProfileError>)
    ensures
        match (r, read_bool_spec(content@, key@, path@)) {
            (Ok(a), Ok(b)) => a == b,
            (Err(e), Err(f)) => e@ == f,
            _ => false,
        },
{
    let steps = xml_steps(content);
    let ghost s = reads_view(steps@);
    let mut i: usize = 0;
    while i < steps.len()
        invariant
            i <= steps@.len(),
            s == reads_view(steps@),
            read_bool_spec(content@, key@, path@) == read_from(s, i as int, key@, path@),
        decreases steps.len() - i,
    {
        assert(s[i as int] == steps@[i as int]@);
        match &steps[i] {
            XmlRead::End => {
                return Err(ProfileError::xml(path, text::concat("boolean key not found: ", key)));
            },
            XmlRead::Failed(m) => {
                return Err(ProfileError::xml(path, m.clone()));
            },
            XmlRead::Event(e) => match is_boolean(e) {
                None => {},
                Some(t) => match bool_name_matches(t, key) {
                    Err(x) => {
                        return Err(x);
                    },
                    Ok(true) => {
                        return bool_value(t);
                    },
                    Ok(false) => {},
                },
            },
        }
        i += 1;
    }
    Err(ProfileError::xml(path, text::concat("boolean key not found: ", key)))
}


/// `a` in front of a result.
pub open spec fn prepend<E>(a: Seq<u8>, r: Result<Seq<u8>, E>) -> Result<Seq<u8>, E> {
    match r {
        Ok(x) => Ok(a + x),
        Err(e) => Err(e),
    }
}

/// Appends `b` to `out`.
pub fn push_bytes(out: &mut Vec<u8>, b: &[u8])
    ensures
        final(out)@ == old(out)@ + b@,
{
    let ghost start = out@;
    let mut i: usize = 0;
    while i < b.len()
        invariant
            i <= b@.len(),
            out@ == start + b@.subrange(0, i as int),
        decreases b.len() - i,
    {
        out.push(b[i]);
        assert(b@.subrange(0, i + 1) =~= b@.subrange(0, i as int).push(b@[i as int]));
        i += 1;
    }
    assert(b@.subrange(0, b@.len() as int) =~= b@);
}

/// ` key="value"`.
fn push_attr(out: &mut Vec<u8>, k: &[u8], v: &[u8])
    ensures
        final(out)@ == old(out)@ + attr_bytes(k@, v@),
{
    out.push(32u8);
    push_bytes(out, k);
    out.push(61u8);
    out.push(34u8);
    push_bytes(out, v);
    out.push(34u8);
    assert(final(out)@ =~= old(out)@ + attr_bytes(k@, v@));
}

/// A `<boolean>` tag written again with `value`.
fn rewrite_tag(t: &XmlTag, value: bool) -> (r: Result<Vec<u8>, ProfileError>)
    ensures
        match (r, rewritten_tag(t@, value)) {
            (Ok(a), Ok(b)) => a@ == b,
            (Err(e), Err(f)) => e@ == f,
            _ => false,
        },
{
    proof {
        reveal_strlit("");
        assert(""@ =~= Seq::<char>::empty());
    }
    let ghost view = t@.attrs;
    assert(view =~= attrs_view(t.attrs@));
    let value_text = if value {
        "true".as_bytes()
    } else {
        "false".as_bytes()
    };
    let value_key = "value".as_bytes();
    let mut acc: Vec<u8> = Vec::new();
    let mut i: usize = 0;
    while i < t.attrs.len()
        invariant
            i <= t.attrs@.len(),
            view == attrs_view(t.attrs@),
            value_text@ == bool_text_bytes(value),
            value_key@ == utf8("value"@),
            ""@ == Seq::<char>::empty(),
            rewritten_attrs(view, 0, value) == prepend(acc@, rewritten_attrs(view, i as int, value)),
        decreases t.attrs.len() - i,
    {
        let ghost before = acc@;
        assert(view[i as int] == attr_view(t.attrs@[i as int]));
        match &t.attrs[i] {
            Err(m) => {
                return Err(ProfileError::xml("", m.clone()));
            },
            Ok((k, v)) => {
                if bytes_eq(k.as_slice(), value_key) {
                    push_attr(&mut acc, k.as_slice(), value_text);
                } else {
                    push_attr(&mut acc, k.as_slice(), v.as_slice());
                }
                proof {
                    let next = rewritten_attrs(view, i + 1, value);
                    if let Ok(rest) = next {
                        assert(acc@ + rest =~= before + (attr_bytes(k@, if k@ == utf8("value"@) { bool_text_bytes(value) } else { v@ }) + rest));
                    }
                }
            },
        }
        i += 1;
    }
    assert(acc@ + Seq::<u8>::empty() =~= acc@);
    let mut out: Vec<u8> = Vec::new();
    out.push(60u8);
    push_bytes(&mut out, t.name.as_slice());
    push_bytes(&mut out, acc.as_slice());
    if t.empty {
        out.push(47u8);
        out.push(62u8);
    } else {
        out.push(62u8);
    }
    assert(out@ =~= seq![60u8] + t.name@ + acc@ + if t.empty { seq![47u8, 62u8] } else { seq![62u8] });
    Ok(out)
}

/// The bytes one event is written back as.
fn rewrite_one(e: &XmlEvent, key: &str, value: bool) -> (r: Result<Vec<u8>, ProfileError>)
    ensures
        match (r, rewrite_event(e@, key@, value)) {
            (Ok(a), Ok(b)) => a@ == b,
            (Err(x), Err(y)) => x@ == y,
            _ => false,
        },
{
    match is_boolean(e) {
        None => Ok(e.written.clone()),
        Some(t) => match bool_name_matches(t, key) {
            Err(x) => Err(x),
            Ok(false) => Ok(e.written.clone()),
            Ok(true) => rewrite_tag(t, value),
        },
    }
}

/// A preferences file with the boolean `key` set to `value`: every event is
/// written back as read, but the `<boolean>` named `key`; `path` names the
/// file in errors.
pub fn rewrite_bool_value(content: &[u8], key: &str, value: bool, path: &str) -> (r: Result<
    Vec<u8>,
    ProfileError,
>)
    ensures
        match (r, rewrite_bool_spec(content@, key@, value, path@)) {
            (Ok(a), Ok(b)) => a@ == b,
            (Err(e), Err(f)) => e@ == f,
            _ => false,
        },
{
    let steps = xml_steps(content);
    let ghost s = reads_view(steps@);
    let mut out: Vec<u8> = Vec::new();
    let mut i: usize = 0;
    while i < steps.len()
        invariant
            i <= steps@.len(),
            s == reads_view(steps@),
            rewrite_bool_spec(content@, key@, value, path@) == prepend(out@, rewrite_from(s, i as int, key@, value, path@)),
        decreases steps.len() - i,
    {
        assert(s[i as int] == steps@[i as int]@);
        let ghost before = out@;
        match &steps[i] {
            XmlRead::End => {
                assert(out@ + Seq::<u8>::empty() =~= out@);
                return Ok(out);
            },
            XmlRead::Failed(m) => {
                return Err(ProfileError::xml(path, m.clone()));
            },
            XmlRead::Event(e) => {
                let bytes = rewrite_one(e, key, value)?;
                push_bytes(&mut out, bytes.as_slice());
                proof {
                    let next = rewrite_from(s, i + 1, key@, value, path@);
                    if let Ok(rest) = next {
                        assert(out@ + rest =~= before + (bytes@ + rest));
                    }
                }
            },
        }
        i += 1;
    }
    assert(out@ + Seq::<u8>::empty() =~= out@);
    Ok(out)
}

} // verus!
