//! 3MF: a zip package holding the content types, the relationships, the
//! model and a thumbnail.
use vstd::prelude::*;
use vstd::utf8::encode_utf8;

use super::mesh::{owned, MeshText, PointText};
use crate::text::{int_text, push_i32};

verus! {

// ---------------------------------------------------------------------------
// quick_xml
// ---------------------------------------------------------------------------

#[verifier::external_type_specification]
#[verifier::external_body]
#[verifier::reject_recursive_types(W)]
pub struct ExXmlWriter<W>(quick_xml::Writer<W>);

/// An XML event: its kind (0 declaration, 1 start tag, 2 empty element, 3 end
/// tag), its name (for a declaration, the version) and its attributes.
pub type XmlEvent = (int, Seq<char>, Seq<(Seq<char>, Seq<char>)>);

/// The bytes written so far into the writer `w`'s buffer.
pub uninterp spec fn xml_buffer(w: quick_xml::Writer<Vec<u8>>) -> Seq<u8>;

/// The indentation that `w` was made with: the character and how many of it
/// make one level; `None` for a writer that does not indent.
pub uninterp spec fn xml_indent(w: quick_xml::Writer<Vec<u8>>) -> Option<(u8, nat)>;

/// The current indentation of `w`, in indent characters.
pub uninterp spec fn xml_level(w: quick_xml::Writer<Vec<u8>>) -> nat;

/// Whether `w` starts its next tag on a new line.
pub uninterp spec fn xml_breaks(w: quick_xml::Writer<Vec<u8>>) -> bool;

/// What an indenting writer puts before a tag: where it breaks lines, a
/// newline and `level` copies of the indent character `c`.
pub open spec fn line_lead(breaks: bool, c: u8, level: nat) -> Seq<u8> {
    if breaks {
        seq![10u8] + Seq::new(level, |i: int| c)
    } else {
        Seq::empty()
    }
}

/// One character of an attribute value as quick_xml's `escape` writes it.
pub open spec fn escape_char(c: char) -> Seq<char> {
    if c == '<' {
        "&lt;"@
    } else if c == '>' {
        "&gt;"@
    } else if c == '&' {
        "&amp;"@
    } else if c == '\'' {
        "&apos;"@
    } else if c == '"' {
        "&quot;"@
    } else {
        seq![c]
    }
}

/// An attribute value as quick_xml's `escape` writes it.
pub open spec fn xml_escape(s: Seq<char>) -> Seq<char>
    decreases s.len(),
{
    if s.len() == 0 {
        Seq::empty()
    } else {
        xml_escape(s.drop_last()) + escape_char(s.last())
    }
}

/// Attributes as written inside a tag: each as a space, the key, `="`, the
/// value (escaped where `escaped`) and `"`.
pub open spec fn attrs_text(attrs: Seq<(Seq<char>, Seq<char>)>, escaped: bool) -> Seq<char>
    decreases attrs.len(),
{
    if attrs.len() == 0 {
        Seq::empty()
    } else {
        let (k, v) = attrs.last();
        attrs_text(attrs.drop_last(), escaped) + " "@ + k + "=\""@ + (if escaped {
            xml_escape(v)
        } else {
            v
        }) + "\""@
    }
}

/// The text of one event as quick_xml writes it: `<?xml version="..."...?>`
/// (attributes unescaped), `<name ...>`, `<name .../>` or `</name>`.
pub open spec fn event_text(e: XmlEvent) -> Seq<char> {
    if e.0 == 0 {
        "<?xml version=\""@ + e.1 + "\""@ + attrs_text(e.2, false) + "?>"@
    } else if e.0 == 1 {
        "<"@ + e.1 + attrs_text(e.2, true) + ">"@
    } else if e.0 == 2 {
        "<"@ + e.1 + attrs_text(e.2, true) + "/>"@
    } else {
        "</"@ + e.1 + ">"@
    }
}

/// Calls `quick_xml::Writer::new_with_indent(Vec::new(), b' ', 2)`.
/// Claimed: the buffer is empty, the indentation is two spaces per level,
/// the level is 0, and the first tag is not preceded by a line break.
#[verifier::external_body]
fn xml_writer() -> (w: quick_xml::Writer<Vec<u8>>)
    ensures
        xml_buffer(w) == Seq::<u8>::empty(),
        xml_indent(w) == Some((32u8, 2nat)),
        xml_level(w) == 0,
        !xml_breaks(w),
{
    quick_xml::Writer::new_with_indent(Vec::new(), b' ', 2)
}

/// Calls `write_event` with an XML declaration of `version` and `encoding`
/// (not standalone) on an indenting writer. Writing into a `Vec` does not
/// fail. Claimed, as `write_event` and `BytesDecl::new` do it: the line lead
/// (where the writer breaks lines), then the declaration, unescaped; the
/// level is kept, the next tag breaks the line.
#[verifier::external_body]
fn xml_decl(w: &mut quick_xml::Writer<Vec<u8>>, version: &str, encoding: &str)
    requires
        xml_indent(*old(w)) is Some,
    ensures
        xml_buffer(*final(w)) == xml_buffer(*old(w)) + line_lead(
            xml_breaks(*old(w)),
            xml_indent(*old(w)).unwrap().0,
            xml_level(*old(w)),
        ) + encode_utf8(event_text((0int, version@, seq![("encoding"@, encoding@)]))),
        xml_indent(*final(w)) == xml_indent(*old(w)),
        xml_level(*final(w)) == xml_level(*old(w)),
        xml_breaks(*final(w)),
{
    let decl = quick_xml::events::BytesDecl::new(version, Some(encoding), None);
    w.write_event(quick_xml::events::Event::Decl(decl)).expect("writing into a Vec");
}
/// Calls `write_event` with the start tag `name` carrying `attrs` in order
/// (each value escaped by quick_xml) on an indenting writer. Claimed: the
/// line lead, then `<name attrs>`; the level grows by one indent; the next
/// tag breaks the line.
#[verifier::external_body]
fn xml_start(w: &mut quick_xml::Writer<Vec<u8>>, name: &str, attrs: &Vec<(String, String)>)
    requires
        xml_indent(*old(w)) is Some,
        xml_level(*old(w)) + xml_indent(*old(w)).unwrap().1 <= usize::MAX,
    ensures
        xml_buffer(*final(w)) == xml_buffer(*old(w)) + line_lead(
            xml_breaks(*old(w)),
            xml_indent(*old(w)).unwrap().0,
            xml_level(*old(w)),
        ) + encode_utf8(event_text((1int, name@, attrs_view(attrs@)))),
        xml_indent(*final(w)) == xml_indent(*old(w)),
        xml_level(*final(w)) == xml_level(*old(w)) + xml_indent(*old(w)).unwrap().1,
        xml_breaks(*final(w)),
{
    let e = quick_xml::events::BytesStart::new(name).with_attributes(
        attrs.iter().map(|a| (a.0.as_str(), a.1.as_str())),
    );
    w.write_event(quick_xml::events::Event::Start(e)).expect("writing into a Vec");
}

/// Calls `write_event` with the empty element `name` carrying `attrs` in
/// order on an indenting writer. Claimed: the line lead, then
/// `<name attrs/>`; the level is kept; the next tag breaks the line.
#[verifier::external_body]
fn xml_empty(w: &mut quick_xml::Writer<Vec<u8>>, name: &str, attrs: &Vec<(String, String)>)
    requires
        xml_indent(*old(w)) is Some,
    ensures
        xml_buffer(*final(w)) == xml_buffer(*old(w)) + line_lead(
            xml_breaks(*old(w)),
            xml_indent(*old(w)).unwrap().0,
            xml_level(*old(w)),
        ) + encode_utf8(event_text((2int, name@, attrs_view(attrs@)))),
        xml_indent(*final(w)) == xml_indent(*old(w)),
        xml_level(*final(w)) == xml_level(*old(w)),
        xml_breaks(*final(w)),
{
    let e = quick_xml::events::BytesStart::new(name).with_attributes(
        attrs.iter().map(|a| (a.0.as_str(), a.1.as_str())),
    );
    w.write_event(quick_xml::events::Event::Empty(e)).expect("writing into a Vec");
}

/// Calls `write_event` with the end tag `name` on an indenting writer.
/// Claimed: the level shrinks by one indent (not below 0), then the line lead
/// at the new level and `</name>`; the next tag breaks the line.
#[verifier::external_body]
fn xml_end(w: &mut quick_xml::Writer<Vec<u8>>, name: &str)
    requires
        xml_indent(*old(w)) is Some,
    ensures
        xml_level(*final(w)) == (if xml_level(*old(w)) >= xml_indent(*old(w)).unwrap().1 {
            (xml_level(*old(w)) - xml_indent(*old(w)).unwrap().1) as nat
        } else {
            0nat
        }),
        xml_buffer(*final(w)) == xml_buffer(*old(w)) + line_lead(
            xml_breaks(*old(w)),
            xml_indent(*old(w)).unwrap().0,
            xml_level(*final(w)),
        ) + encode_utf8(event_text((3int, name@, Seq::empty()))),
        xml_indent(*final(w)) == xml_indent(*old(w)),
        xml_breaks(*final(w)),
{
    w.write_event(quick_xml::events::Event::End(quick_xml::events::BytesEnd::new(name)))
        .expect("writing into a Vec");
}

/// Calls `into_inner`. Claimed: the bytes are the writer's buffer.
#[verifier::external_body]
fn xml_bytes(w: quick_xml::Writer<Vec<u8>>) -> (out: Vec<u8>)
    ensures
        out@ == xml_buffer(w),
{
    w.into_inner()
}

/// The attributes `attrs`, as text.
pub open spec fn attrs_view(attrs: Seq<(String, String)>) -> Seq<(Seq<char>, Seq<char>)> {
    attrs.map_values(|a: (String, String)| (a.0@, a.1@))
}

// ---------------------------------------------------------------------------
// Writing a sequence of events
// ---------------------------------------------------------------------------

/// The indentation level after `events`, two spaces per open start tag (an
/// end tag never takes it below 0).
#[verifier::opaque]
pub open spec fn level_after(events: Seq<XmlEvent>) -> nat
    decreases events.len(),
{
    if events.len() == 0 {
        0
    } else {
        let l = level_after(events.drop_last());
        let e = events.last();
        if e.0 == 1 {
            l + 2
        } else if e.0 == 3 {
            shrunk(l)
        } else {
            l
        }
    }
}

/// A level less one indent of two, not below 0.
pub open spec fn shrunk(l: nat) -> nat {
    if l >= 2 {
        (l - 2) as nat
    } else {
        0
    }
}

/// The bytes that a two-space indenting writer holds after `events`: each
/// event's text, every one after the first on a new line indented to its
/// level (for an end tag, the level after it closes).
#[verifier::opaque]
pub open spec fn xml_render(events: Seq<XmlEvent>) -> Seq<u8>
    decreases events.len(),
{
    if events.len() == 0 {
        Seq::empty()
    } else {
        let prev = events.drop_last();
        let e = events.last();
        let l = if e.0 == 3 {
            shrunk(level_after(prev))
        } else {
            level_after(prev)
        };
        xml_render(prev) + line_lead(prev.len() > 0, 32u8, l) + encode_utf8(event_text(e))
    }
}

/// `w` is a two-space indenting writer that has written `events`.
pub open spec fn has_written(w: quick_xml::Writer<Vec<u8>>, events: Seq<XmlEvent>) -> bool {
    &&& xml_indent(w) == Some((32u8, 2nat))
    &&& xml_buffer(w) == xml_render(events)
    &&& xml_level(w) == level_after(events)
    &&& xml_breaks(w) == (events.len() > 0)
}

/// Adding one event to what a writer has written.
proof fn lemma_render_push(events: Seq<XmlEvent>, e: XmlEvent)
    ensures
        events.push(e).drop_last() == events,
        events.push(e).last() == e,
{
    assert(events.push(e).drop_last() =~= events);
}

fn put_decl(
    w: &mut quick_xml::Writer<Vec<u8>>,
    version: &str,
    encoding: &str,
    Ghost(done): Ghost<Seq<XmlEvent>>,
)
    requires
        has_written(*old(w), done),
    ensures
        has_written(*final(w), done.push((0int, version@, seq![("encoding"@, encoding@)]))),
        level_after(done.push((0int, version@, seq![("encoding"@, encoding@)]))) == level_after(
            done,
        ),
{
    proof {
        reveal(xml_render);
        reveal(level_after);
        lemma_render_push(done, (0int, version@, seq![("encoding"@, encoding@)]));
    }
    xml_decl(w, version, encoding);
}

fn put_start(
    w: &mut quick_xml::Writer<Vec<u8>>,
    name: &str,
    attrs: &Vec<(String, String)>,
    Ghost(done): Ghost<Seq<XmlEvent>>,
)
    requires
        has_written(*old(w), done),
        level_after(done) + 2 <= usize::MAX,
    ensures
        has_written(*final(w), done.push((1int, name@, attrs_view(attrs@)))),
        level_after(done.push((1int, name@, attrs_view(attrs@)))) == level_after(done) + 2,
{
    proof {
        reveal(xml_render);
        reveal(level_after);
        lemma_render_push(done, (1int, name@, attrs_view(attrs@)));
    }
    xml_start(w, name, attrs);
}

fn put_empty(
    w: &mut quick_xml::Writer<Vec<u8>>,
    name: &str,
    attrs: &Vec<(String, String)>,
    Ghost(done): Ghost<Seq<XmlEvent>>,
)
    requires
        has_written(*old(w), done),
    ensures
        has_written(*final(w), done.push((2int, name@, attrs_view(attrs@)))),
        level_after(done.push((2int, name@, attrs_view(attrs@)))) == level_after(done),
{
    proof {
        reveal(xml_render);
        reveal(level_after);
        lemma_render_push(done, (2int, name@, attrs_view(attrs@)));
    }
    xml_empty(w, name, attrs);
}

fn put_end(w: &mut quick_xml::Writer<Vec<u8>>, name: &str, Ghost(done): Ghost<Seq<XmlEvent>>)
    requires
        has_written(*old(w), done),
    ensures
        has_written(*final(w), done.push((3int, name@, Seq::empty()))),
        level_after(done.push((3int, name@, Seq::empty()))) == shrunk(level_after(done)),
{
    proof {
        reveal(xml_render);
        reveal(level_after);
        lemma_render_push(done, (3int, name@, Seq::empty()));
    }
    xml_end(w, name);
}

/// Writes meshes as 3MF.
pub struct ThreeMFExporter;

/// `[Content_Types].xml`: the content types of the parts.
pub fn content_types_xml() -> (s: String)
    ensures
        s@ == "<?xml version=\"1.0\" encoding=\"UTF-8\"?>\n<Types xmlns=\"http://schemas.openxmlformats.org/package/2006/content-types\">\n  <Default Extension=\"rels\" ContentType=\"application/vnd.openxmlformats-package.relationships+xml\"/>\n  <Default Extension=\"model\" ContentType=\"application/vnd.ms-package.3dmanufacturing-3dmodel+xml\"/>\n  <Default Extension=\"png\" ContentType=\"image/png\"/>\n</Types>\n"@,
{
    owned("<?xml version=\"1.0\" encoding=\"UTF-8\"?>\n<Types xmlns=\"http://schemas.openxmlformats.org/package/2006/content-types\">\n  <Default Extension=\"rels\" ContentType=\"application/vnd.openxmlformats-package.relationships+xml\"/>\n  <Default Extension=\"model\" ContentType=\"application/vnd.ms-package.3dmanufacturing-3dmodel+xml\"/>\n  <Default Extension=\"png\" ContentType=\"image/png\"/>\n</Types>\n")
}

/// `_rels/.rels`: the package relationships (model and thumbnail).
pub fn rels_dot_rels() -> (s: String)
    ensures
        s@ == "<?xml version=\"1.0\" encoding=\"UTF-8\"?>\n<Relationships xmlns=\"http://schemas.openxmlformats.org/package/2006/relationships\">\n  <Relationship Id=\"rel0\" Type=\"http://schemas.microsoft.com/3dmanufacturing/2013/01/3dmodel\" Target=\"/3D/3dmodel.model\"/>\n  <Relationship Id=\"rel1\" Type=\"http://schemas.openxmlformats.org/package/2006/relationships/thumbnail\" Target=\"/3D/Thumbnails/thumbnail.png\"/>\n</Relationships>\n"@,
{
    owned("<?xml version=\"1.0\" encoding=\"UTF-8\"?>\n<Relationships xmlns=\"http://schemas.openxmlformats.org/package/2006/relationships\">\n  <Relationship Id=\"rel0\" Type=\"http://schemas.microsoft.com/3dmanufacturing/2013/01/3dmodel\" Target=\"/3D/3dmodel.model\"/>\n  <Relationship Id=\"rel1\" Type=\"http://schemas.openxmlformats.org/package/2006/relationships/thumbnail\" Target=\"/3D/Thumbnails/thumbnail.png\"/>\n</Relationships>\n")
}

/// `3D/_rels/3dmodel.model.rels`: the model's relationships (none).
pub fn model_rels() -> (s: String)
    ensures
        s@ == "<?xml version=\"1.0\" encoding=\"UTF-8\"?>\n<Relationships xmlns=\"http://schemas.openxmlformats.org/package/2006/relationships\">\n</Relationships>\n"@,
{
    owned("<?xml version=\"1.0\" encoding=\"UTF-8\"?>\n<Relationships xmlns=\"http://schemas.openxmlformats.org/package/2006/relationships\">\n</Relationships>\n")
}


// ---------------------------------------------------------------------------
// The model
// ---------------------------------------------------------------------------

/// An attribute as a name and a value.
pub open spec fn attr(k: &str, v: &str) -> (Seq<char>, Seq<char>) {
    (k@, v@)
}

/// The `<vertex>` element of a point.
pub open spec fn vertex_event(p: PointText) -> XmlEvent {
    (2int, "vertex"@, seq![("x"@, p.x@), ("y"@, p.y@), ("z"@, p.z@)])
}

/// The `<triangle>` element of a triangle.
pub open spec fn triangle_event(f: [i32; 3]) -> XmlEvent {
    (
        2int,
        "triangle"@,
        seq![
            ("v1"@, int_text(f[0] as int)),
            ("v2"@, int_text(f[1] as int)),
            ("v3"@, int_text(f[2] as int)),
        ],
    )
}

/// The events of the 3MF model document: the declaration, `<model>` (unit,
/// namespaces, language) with `<resources>` holding one `<object>` whose
/// `<mesh>` lists the vertices and triangles, and `<build>` with one item.
pub open spec fn model_events(t: MeshText) -> Seq<XmlEvent> {
    seq![
        (0int, "1.0"@, seq![("encoding"@, "UTF-8"@)]),
        (
            1int,
            "model"@,
            seq![
                attr("unit", "millimeter"),
                attr("xmlns", "http://schemas.microsoft.com/3dmanufacturing/2013/01/3dmodel"),
                attr("xmlns:p", "http://schemas.microsoft.com/3dmanufacturing/2013/01/3dmodelxml"),
                attr("xml:lang", "en-US"),
            ],
        ),
        (1int, "resources"@, Seq::empty()),
        (1int, "object"@, seq![attr("id", "1"), attr("type", "model")]),
        (1int, "mesh"@, Seq::empty()),
        (1int, "vertices"@, Seq::empty()),
    ] + t.points@.map_values(|p: PointText| vertex_event(p)) + seq![
        (3int, "vertices"@, Seq::empty()),
        (1int, "triangles"@, Seq::empty()),
    ] + t.faces@.map_values(|f: [i32; 3]| triangle_event(f)) + seq![
        (3int, "triangles"@, Seq::empty()),
        (3int, "mesh"@, Seq::empty()),
        (3int, "object"@, Seq::empty()),
        (3int, "resources"@, Seq::empty()),
        (1int, "build"@, Seq::empty()),
        (2int, "item"@, seq![attr("objectid", "1")]),
        (3int, "build"@, Seq::empty()),
        (3int, "model"@, Seq::empty()),
    ]
}

fn attrs0() -> (a: Vec<(String, String)>)
    ensures
        attrs_view(a@) == Seq::<(Seq<char>, Seq<char>)>::empty(),
{
    let a: Vec<(String, String)> = Vec::new();
    assert(attrs_view(a@) =~= Seq::<(Seq<char>, Seq<char>)>::empty());
    a
}

fn push_attr(a: &mut Vec<(String, String)>, k: &str, v: String)
    ensures
        attrs_view(final(a)@) == attrs_view(old(a)@).push((k@, v@)),
{
    a.push((owned(k), v));
    assert(attrs_view(final(a)@) =~= attrs_view(old(a)@).push((k@, v@)));
}

fn int_string(i: i32) -> (s: String)
    ensures
        s@ == int_text(i as int),
{
    let mut s = String::new();
    push_i32(&mut s, i);
    assert(s@ =~= int_text(i as int));
    s
}

impl ThreeMFExporter {
    /// The bytes of `3D/3dmodel.model` for `text`, as quick_xml writes the
    /// model's events with two-space indentation.
    pub fn model_xml(&self, text: &MeshText) -> (out: Vec<u8>)
        ensures
            out@ == xml_render(model_events(*text)),
    {
        let mut w = xml_writer();
        let ghost done: Seq<XmlEvent> = Seq::empty();
        assert(has_written(w, done) && level_after(done) == 0) by {
            reveal(xml_render);
            reveal(level_after);
        }
        put_decl(&mut w, "1.0", "UTF-8", Ghost(done));
        proof { done = done.push((0int, "1.0"@, seq![("encoding"@, "UTF-8"@)])); }
        let mut model = attrs0();
        push_attr(&mut model, "unit", owned("millimeter"));
        push_attr(
            &mut model,
            "xmlns",
            owned("http://schemas.microsoft.com/3dmanufacturing/2013/01/3dmodel"),
        );
        push_attr(
            &mut model,
            "xmlns:p",
            owned("http://schemas.microsoft.com/3dmanufacturing/2013/01/3dmodelxml"),
        );
        push_attr(&mut model, "xml:lang", owned("en-US"));
        assert(attrs_view(model@) =~= seq![
            attr("unit", "millimeter"),
            attr("xmlns", "http://schemas.microsoft.com/3dmanufacturing/2013/01/3dmodel"),
            attr("xmlns:p", "http://schemas.microsoft.com/3dmanufacturing/2013/01/3dmodelxml"),
            attr("xml:lang", "en-US"),
        ]);
        put_start(&mut w, "model", &model, Ghost(done));
        proof { done = done.push((1int, "model"@, attrs_view(model@))); }
        let none = attrs0();
        put_start(&mut w, "resources", &none, Ghost(done));
        proof { done = done.push((1int, "resources"@, attrs_view(none@))); }
        let mut object = attrs0();
        push_attr(&mut object, "id", owned("1"));
        push_attr(&mut object, "type", owned("model"));
        assert(attrs_view(object@) =~= seq![attr("id", "1"), attr("type", "model")]);
        put_start(&mut w, "object", &object, Ghost(done));
        proof { done = done.push((1int, "object"@, attrs_view(object@))); }
        put_start(&mut w, "mesh", &none, Ghost(done));
        proof { done = done.push((1int, "mesh"@, attrs_view(none@))); }
        put_start(&mut w, "vertices", &none, Ghost(done));
        proof { done = done.push((1int, "vertices"@, attrs_view(none@))); }
        let ghost head = done;
        assert(head =~= model_events(*text).take(6));
        assert(level_after(head) == 10);
        let mut i: usize = 0;
        while i < text.points.len()
            invariant
                i <= text.points@.len(),
                level_after(head) == 10,
                has_written(
                    w,
                    head + text.points@.take(i as int).map_values(|p: PointText| vertex_event(p)),
                ),
                level_after(
                    head + text.points@.take(i as int).map_values(|p: PointText| vertex_event(p)),
                ) == 10,
            decreases text.points@.len() - i,
        {
            let p = &text.points[i];
            let mut a = attrs0();
            push_attr(&mut a, "x", p.x.clone());
            push_attr(&mut a, "y", p.y.clone());
            push_attr(&mut a, "z", p.z.clone());
            assert(attrs_view(a@) =~= seq![("x"@, p.x@), ("y"@, p.y@), ("z"@, p.z@)]);
            let ghost before = head + text.points@.take(i as int).map_values(
                |p: PointText| vertex_event(p),
            );
            put_empty(&mut w, "vertex", &a, Ghost(before));
            assert(text.points@.take(i + 1).map_values(|p: PointText| vertex_event(p))
                =~= text.points@.take(i as int).map_values(|p: PointText| vertex_event(p)).push(
                vertex_event(text.points@[i as int]),
            ));
            assert(before.push(vertex_event(*p)) =~= head + text.points@.take(i + 1).map_values(
                |p: PointText| vertex_event(p),
            ));
            i = i + 1;
        }
        assert(text.points@.take(i as int) =~= text.points@);
        proof {
            done = head + text.points@.map_values(|p: PointText| vertex_event(p));
        }
        put_end(&mut w, "vertices", Ghost(done));
        proof { done = done.push((3int, "vertices"@, Seq::empty())); }
        put_start(&mut w, "triangles", &none, Ghost(done));
        proof { done = done.push((1int, "triangles"@, attrs_view(none@))); }
        let ghost mid = done;
        assert(level_after(mid) == 10);
        let mut i: usize = 0;
        while i < text.faces.len()
            invariant
                i <= text.faces@.len(),
                level_after(mid) == 10,
                has_written(
                    w,
                    mid + text.faces@.take(i as int).map_values(|f: [i32; 3]| triangle_event(f)),
                ),
                level_after(
                    mid + text.faces@.take(i as int).map_values(|f: [i32; 3]| triangle_event(f)),
                ) == 10,
            decreases text.faces@.len() - i,
        {
            let f = text.faces[i];
            let mut a = attrs0();
            push_attr(&mut a, "v1", int_string(f[0]));
            push_attr(&mut a, "v2", int_string(f[1]));
            push_attr(&mut a, "v3", int_string(f[2]));
            assert(attrs_view(a@) =~= seq![
                ("v1"@, int_text(f[0] as int)),
                ("v2"@, int_text(f[1] as int)),
                ("v3"@, int_text(f[2] as int)),
            ]);
            let ghost before = mid + text.faces@.take(i as int).map_values(
                |f: [i32; 3]| triangle_event(f),
            );
            put_empty(&mut w, "triangle", &a, Ghost(before));
            assert(text.faces@.take(i + 1).map_values(|f: [i32; 3]| triangle_event(f))
                =~= text.faces@.take(i as int).map_values(|f: [i32; 3]| triangle_event(f)).push(
                triangle_event(text.faces@[i as int]),
            ));
            assert(before.push(triangle_event(f)) =~= mid + text.faces@.take(i + 1).map_values(
                |f: [i32; 3]| triangle_event(f),
            ));
            i = i + 1;
        }
        assert(text.faces@.take(i as int) =~= text.faces@);
        proof {
            done = mid + text.faces@.map_values(|f: [i32; 3]| triangle_event(f));
        }
        put_end(&mut w, "triangles", Ghost(done));
        proof { done = done.push((3int, "triangles"@, Seq::empty())); }
        put_end(&mut w, "mesh", Ghost(done));
        proof { done = done.push((3int, "mesh"@, Seq::empty())); }
        put_end(&mut w, "object", Ghost(done));
        proof { done = done.push((3int, "object"@, Seq::empty())); }
        put_end(&mut w, "resources", Ghost(done));
        proof { done = done.push((3int, "resources"@, Seq::empty())); }
        put_start(&mut w, "build", &none, Ghost(done));
        proof { done = done.push((1int, "build"@, attrs_view(none@))); }
        let mut item = attrs0();
        push_attr(&mut item, "objectid", owned("1"));
        assert(attrs_view(item@) =~= seq![attr("objectid", "1")]);
        put_empty(&mut w, "item", &item, Ghost(done));
        proof { done = done.push((2int, "item"@, attrs_view(item@))); }
        put_end(&mut w, "build", Ghost(done));
        proof { done = done.push((3int, "build"@, Seq::empty())); }
        put_end(&mut w, "model", Ghost(done));
        proof { done = done.push((3int, "model"@, Seq::empty())); }
        assert(done =~= model_events(*text));
        xml_bytes(w)
    }
}

/// Law: the 3MF model lists, inside its `<vertices>`, one empty `<vertex>`
/// element per point with the point's x, y and z, in order, and inside its
/// `<triangles>`, one empty `<triangle>` element per triangle with its
/// corners as v1, v2 and v3, in order; six events open the document before
/// the vertices, two stand between the lists and eight close it.
pub proof fn threemf_lists_every_vertex_and_triangle(t: MeshText)
    ensures
        model_events(t).len() == 16 + t.points@.len() + t.faces@.len(),
        forall|i: int|
            0 <= i < t.points@.len() ==> model_events(t)[6 + i] == (
                2int,
                "vertex"@,
                seq![("x"@, #[trigger] t.points@[i].x@), ("y"@, t.points@[i].y@), ("z"@, t.points@[i].z@)],
            ),
        forall|j: int|
            0 <= j < t.faces@.len() ==> model_events(t)[8 + t.points@.len() + j] == (
                2int,
                "triangle"@,
                seq![
                    ("v1"@, int_text((#[trigger] t.faces@[j])[0] as int)),
                    ("v2"@, int_text(t.faces@[j][1] as int)),
                    ("v3"@, int_text(t.faces@[j][2] as int)),
                ],
            ),
{
    let np = t.points@.len();
    let ev = model_events(t);
    assert forall|i: int| 0 <= i < np implies ev[6 + i] == (
        2int,
        "vertex"@,
        seq![("x"@, #[trigger] t.points@[i].x@), ("y"@, t.points@[i].y@), ("z"@, t.points@[i].z@)],
    ) by {
        assert(ev[6 + i] == vertex_event(t.points@[i]));
    }
    assert forall|j: int| 0 <= j < t.faces@.len() implies ev[8 + np + j] == (
        2int,
        "triangle"@,
        seq![
            ("v1"@, int_text((#[trigger] t.faces@[j])[0] as int)),
            ("v2"@, int_text(t.faces@[j][1] as int)),
            ("v3"@, int_text(t.faces@[j][2] as int)),
        ],
    ) by {
        assert(ev[8 + np + j] == triangle_event(t.faces@[j]));
    }
}

} // verus!
