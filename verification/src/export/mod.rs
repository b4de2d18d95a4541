//! Exporters: each renders a mesh as the bytes or text of one file format.
use vstd::prelude::*;

pub mod amf;
pub mod dae;
pub mod dxf;
pub mod fbx;
pub mod glb;
pub mod line;
pub mod gltf;
pub mod mesh;
pub mod msh;
pub mod obj;
pub mod off;
pub mod ply;
pub mod ply_binary;
pub mod stl;
pub mod threemf;
pub mod usdz;
pub mod vtk;
pub mod vrml;
pub mod x3d;
pub mod xyz;

verus! {

/// The formats that conversions offer.
#[derive(Clone, Copy, Debug, PartialEq, Eq)]
pub enum ExportFormat {
    Stl,
    Ply,
    Obj,
    Off,
    ThreeMf,
    Amf,
    Vrml,
    X3d,
}

/// The names of the formats that conversions offer, in order.
pub open spec fn supported_format_names() -> Seq<Seq<char>> {
    seq!["stl"@, "ply"@, "obj"@, "off"@, "3mf"@, "amf"@, "vrml"@, "x3d"@]
}

/// The names of the formats that conversions offer.
pub fn supported_formats() -> (names: Vec<&'static str>)
    ensures
        names@.map_values(|s: &str| s@) == supported_format_names(),
{
    let mut names: Vec<&'static str> = Vec::new();
    names.push("stl");
    names.push("ply");
    names.push("obj");
    names.push("off");
    names.push("3mf");
    names.push("amf");
    names.push("vrml");
    names.push("x3d");
    assert(names@.map_values(|s: &str| s@) =~= supported_format_names());
    names
}

/// The format named `name` (already in lower case).
pub open spec fn format_named(name: Seq<char>) -> Option<ExportFormat> {
    if name == "stl"@ {
        Some(ExportFormat::Stl)
    } else if name == "ply"@ {
        Some(ExportFormat::Ply)
    } else if name == "obj"@ {
        Some(ExportFormat::Obj)
    } else if name == "off"@ {
        Some(ExportFormat::Off)
    } else if name == "3mf"@ {
        Some(ExportFormat::ThreeMf)
    } else if name == "amf"@ {
        Some(ExportFormat::Amf)
    } else if name == "vrml"@ {
        Some(ExportFormat::Vrml)
    } else if name == "x3d"@ {
        Some(ExportFormat::X3d)
    } else {
        None
    }
}

/// Every character of `s` is ASCII.
pub open spec fn is_ascii_text(s: Seq<char>) -> bool {
    forall|i: int| 0 <= i < s.len() ==> (#[trigger] s[i] as u32) < 128
}

/// `c` with an ASCII capital letter replaced by its small letter.
pub open spec fn ascii_lower_char(c: char) -> char {
    if 65 <= (c as u32) <= 90 {
        ((c as u32) + 32) as char
    } else {
        c
    }
}

/// `s` with every ASCII capital letter replaced by its small letter.
pub open spec fn ascii_lowered(s: Seq<char>) -> Seq<char> {
    s.map_values(|c: char| ascii_lower_char(c))
}

/// What `str::to_lowercase` makes of `s`.
pub uninterp spec fn lowercased(s: Seq<char>) -> Seq<char>;

/// Calls `str::to_lowercase`. Claimed: the result is `lowercased(s)`, a
/// function of `s` alone (Unicode lower-case mapping); on ASCII text it maps
/// each capital letter `A`-`Z` to its small letter and keeps every other
/// character, as for `to_ascii_lowercase`.
#[verifier::external_body]
fn to_lowercase(s: &str) -> (r: String)
    ensures
        r@ == lowercased(s@),
        is_ascii_text(s@) ==> r@ == ascii_lowered(s@),
{
    s.to_lowercase()
}

fn same_text(a: &String, b: &str) -> (r: bool)
    ensures
        r == (a@ == b@),
{
    let b = b.to_owned();
    *a == b
}

/// The format named `name`, which is already in lower case.
pub fn format_for_lowercase(name: &String) -> (f: Option<ExportFormat>)
    ensures
        f == format_named(name@),
{
    if same_text(name, "stl") {
        Some(ExportFormat::Stl)
    } else if same_text(name, "ply") {
        Some(ExportFormat::Ply)
    } else if same_text(name, "obj") {
        Some(ExportFormat::Obj)
    } else if same_text(name, "off") {
        Some(ExportFormat::Off)
    } else if same_text(name, "3mf") {
        Some(ExportFormat::ThreeMf)
    } else if same_text(name, "amf") {
        Some(ExportFormat::Amf)
    } else if same_text(name, "vrml") {
        Some(ExportFormat::Vrml)
    } else if same_text(name, "x3d") {
        Some(ExportFormat::X3d)
    } else {
        None
    }
}

/// The exporter for the format named `format`, in any case. For an ASCII
/// name, only the name with its capitals made small counts.
pub fn exporter_for(format: &str) -> (f: Option<ExportFormat>)
    ensures
        f == format_named(lowercased(format@)),
        is_ascii_text(format@) ==> f == format_named(ascii_lowered(format@)),
{
    let lower = to_lowercase(format);
    format_for_lowercase(&lower)
}

/// Law: a (lower-case) name is recognised as a format exactly when it is
/// one of the supported format names.
pub proof fn supported_names_are_recognised(name: Seq<char>)
    ensures
        format_named(name) is Some <==> supported_format_names().contains(name),
{
    let names = supported_format_names();
    if format_named(name) is Some {
        if name == "stl"@ {
            assert(names[0] == name);
        } else if name == "ply"@ {
            assert(names[1] == name);
        } else if name == "obj"@ {
            assert(names[2] == name);
        } else if name == "off"@ {
            assert(names[3] == name);
        } else if name == "3mf"@ {
            assert(names[4] == name);
        } else if name == "amf"@ {
            assert(names[5] == name);
        } else if name == "vrml"@ {
            assert(names[6] == name);
        } else {
            assert(names[7] == name);
        }
    }
    if names.contains(name) {
        let i = choose|i: int| 0 <= i < names.len() && names[i] == name;
        assert(0 <= i < 8);
    }
}

/// Law: the supported names are distinct, ASCII, and already in lower case
/// (making their capitals small leaves them as they are).
pub proof fn supported_names_are_distinct_lower_case()
    ensures
        forall|i: int|
            0 <= i < supported_format_names().len() ==> is_ascii_text(
                #[trigger] supported_format_names()[i],
            ) && ascii_lowered(supported_format_names()[i]) == supported_format_names()[i],
        forall|i: int, j: int|
            0 <= i < j < supported_format_names().len() ==> supported_format_names()[i]
                != supported_format_names()[j],
{
    reveal_strlit("stl");
    reveal_strlit("ply");
    reveal_strlit("obj");
    reveal_strlit("off");
    reveal_strlit("3mf");
    reveal_strlit("amf");
    reveal_strlit("vrml");
    reveal_strlit("x3d");
    let names = supported_format_names();
    assert forall|i: int| 0 <= i < names.len() implies is_ascii_text(#[trigger] names[i])
        && ascii_lowered(names[i]) == names[i] by {
        let n = names[i];
        assert(ascii_lowered(n) =~= n);
    }
    assert forall|i: int, j: int| 0 <= i < j < names.len() implies names[i] != names[j] by {
        let a = names[i];
        let b = names[j];
        assert(a.len() != b.len() || a[0] != b[0] || a[1] != b[1] || a[2] != b[2]);
    }
}

/// Law: letter case does not matter to an ASCII name. Making its capitals
/// small gives ASCII text that the same step leaves unchanged, so a name and
/// its lower-case form pick the same format; and the name is recognised
/// exactly when its lower-case form is a supported name.
pub proof fn letter_case_does_not_matter(name: Seq<char>)
    requires
        is_ascii_text(name),
    ensures
        is_ascii_text(ascii_lowered(name)),
        ascii_lowered(ascii_lowered(name)) == ascii_lowered(name),
        format_named(ascii_lowered(name)) is Some <==> supported_format_names().contains(
            ascii_lowered(name),
        ),
{
    let low = ascii_lowered(name);
    assert forall|i: int| 0 <= i < low.len() implies (#[trigger] low[i] as u32) < 128 by {
        assert((name[i] as u32) < 128);
    }
    assert(ascii_lowered(low) =~= low);
    supported_names_are_recognised(low);
}

} // verus!
