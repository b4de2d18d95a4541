//! The outcome of a conversion, as reported to callers.
use vstd::prelude::*;
use vstd::string::StrSliceExecFns;

use crate::cxbin::mesh::CxbinMesh;
use crate::export::mesh::owned;
use crate::text::push_str;

verus! {

/// Sizes of the converted mesh.
pub struct Stats {
    pub vertices: usize,
    pub faces: usize,
    pub compressed_bytes: Option<usize>,
    pub uncompressed_bytes: Option<usize>,
}

/// The outcome of converting one file.
pub struct ConversionResult {
    pub success: bool,
    pub input: String,
    pub format: String,
    pub outputs: Vec<String>,
    pub stats: Stats,
    pub error: Option<String>,
}

/// Which folder a conversion writes into.
#[derive(Clone, Copy, Debug, PartialEq, Eq)]
pub enum OutputFolder {
    /// The output folder that the caller gave.
    Given,
    /// The folder that holds the input file.
    InputParent,
    /// The current folder, `.`.
    Current,
}

/// The folder chosen: the given output folder where there is a non-empty
/// one, else the input's parent folder where it is non-empty, else `.`.
pub open spec fn output_folder_spec(
    output_folder: Option<Seq<char>>,
    has_input_parent: bool,
) -> OutputFolder {
    if output_folder matches Some(f) && f.len() > 0 {
        OutputFolder::Given
    } else if has_input_parent {
        OutputFolder::InputParent
    } else {
        OutputFolder::Current
    }
}

/// Chooses the folder a conversion writes into, from the caller's output
/// folder (if any) and whether the input path has a non-empty parent.
pub fn choose_output_folder(output_folder: &Option<String>, has_input_parent: bool) -> (c:
    OutputFolder)
    ensures
        c == output_folder_spec(
            match output_folder {
                Some(f) => Some(f@),
                None => None,
            },
            has_input_parent,
        ),
{
    match output_folder {
        Some(f) if f.as_str().unicode_len() > 0 => OutputFolder::Given,
        _ => if has_input_parent {
            OutputFolder::InputParent
        } else {
            OutputFolder::Current
        },
    }
}

/// The names of a conversion's output inside the chosen folder: for OBJ a
/// folder of its own, `<stem>_obj`, else none; and the file `<stem>.<format>`.
pub struct OutputName {
    pub subfolder: Option<String>,
    pub file_name: String,
}

/// The stem used: the input's file stem, or `out` where it has none.
pub open spec fn stem_or_out(stem: Option<Seq<char>>) -> Seq<char> {
    match stem {
        Some(s) => s,
        None => "out"@,
    }
}

/// Names the output of converting an input with file stem `stem` (if any)
/// to `format`, which is already in lower case.
pub fn output_name(stem: &Option<String>, format: &String) -> (r: OutputName)
    ensures
        ({
            let st = stem_or_out(
                match stem {
                    Some(s) => Some(s@),
                    None => None,
                },
            );
            &&& r.file_name@ == st + "."@ + format@
            &&& r.subfolder matches Some(d) ==> d@ == st + "_obj"@
            &&& (r.subfolder is Some <==> format@ == "obj"@)
        }),
{
    let mut st = match stem {
        Some(s) => s.clone(),
        None => owned("out"),
    };
    let mut file_name = st.clone();
    push_str(&mut file_name, ".");
    push_str(&mut file_name, format.as_str());
    let obj = owned("obj");
    let subfolder = if *format == obj {
        push_str(&mut st, "_obj");
        Some(st)
    } else {
        None
    };
    OutputName { subfolder, file_name }
}

impl Stats {
    /// The stats of a file that could not be read: all zero.
    pub fn empty() -> (s: Stats)
        ensures
            s.vertices == 0,
            s.faces == 0,
            s.compressed_bytes is None,
            s.uncompressed_bytes is None,
    {
        Stats { vertices: 0, faces: 0, compressed_bytes: None, uncompressed_bytes: None }
    }

    /// The stats of `mesh`.
    pub fn of_mesh(mesh: &CxbinMesh) -> (s: Stats)
        ensures
            s.vertices == mesh.vertices@.len(),
            s.faces == mesh.faces@.len(),
            s.compressed_bytes == mesh.compressed_bytes,
            s.uncompressed_bytes == mesh.uncompressed_bytes,
    {
        Stats {
            vertices: mesh.vertex_count(),
            faces: mesh.face_count(),
            compressed_bytes: mesh.compressed_bytes,
            uncompressed_bytes: mesh.uncompressed_bytes,
        }
    }
}

impl ConversionResult {
    /// The report of a conversion whose input could not be read: not a
    /// success, no outputs, empty stats, and the reader's error text.
    pub fn load_failed(input: String, format: String, error: String) -> (r: ConversionResult)
        ensures
            !r.success,
            r.input == input,
            r.format == format,
            r.outputs@.len() == 0,
            r.stats.vertices == 0 && r.stats.faces == 0,
            r.stats.compressed_bytes is None && r.stats.uncompressed_bytes is None,
            r.error == Some(error),
    {
        ConversionResult {
            success: false,
            input,
            format,
            outputs: Vec::new(),
            stats: Stats::empty(),
            error: Some(error),
        }
    }

    /// The report of a conversion whose input was read, with the stats of the
    /// mesh: a success listing the written files where the export succeeded,
    /// else a failure with the export's error text and no outputs.
    pub fn exported(
        input: String,
        format: String,
        stats: Stats,
        export: Result<Vec<String>, String>,
    ) -> (r: ConversionResult)
        ensures
            r.input == input,
            r.format == format,
            r.stats == stats,
            r.success == export is Ok,
            match export {
                Ok(outputs) => r.outputs == outputs && r.error is None,
                Err(e) => r.outputs@.len() == 0 && r.error == Some(e),
            },
    {
        match export {
            Ok(outputs) => ConversionResult {
                success: true,
                input,
                format,
                outputs,
                stats,
                error: None,
            },
            Err(e) => ConversionResult {
                success: false,
                input,
                format,
                outputs: Vec::new(),
                stats,
                error: Some(e),
            },
        }
    }
}

} // verus!
