//! Asset records and the file metadata attached to them.
use crate::assets::{
    detect_kind_from_path, file_name, kind_for_optional_extension, path_components,
    path_extension, path_text, AssetDiagnostic, AssetError, AssetId, AssetKind, AssetName,
    AssetPath,
};
use crate::text::{all_whitespace, trim};
use vstd::prelude::*;

verus! {

/// What is known of an asset's file besides its path. Times are
/// milliseconds since the Unix epoch.
#[derive(Debug, Clone, PartialEq, Eq)]
pub struct AssetMetadata {
    pub source_path: Option<String>,
    pub extension: Option<String>,
    pub file_size: Option<u64>,
    pub modified_time: Option<u64>,
    pub diagnostics: Vec<AssetDiagnostic>,
}

impl AssetMetadata {
    pub fn empty() -> (r: Self)
        ensures
            r.source_path is None,
            r.extension is None,
            r.file_size is None,
            r.modified_time is None,
            r.diagnostics@.len() == 0,
    {
        AssetMetadata {
            source_path: None,
            extension: None,
            file_size: None,
            modified_time: None,
            diagnostics: Vec::new(),
        }
    }

    pub fn with_source_path(self, source_path: &str) -> (r: Self)
        ensures
            r.source_path matches Some(p) && p@ == source_path@,
            r.extension == self.extension,
            r.file_size == self.file_size,
            r.modified_time == self.modified_time,
            r.diagnostics == self.diagnostics,
    {
        AssetMetadata { source_path: Some(source_path.to_owned()), ..self }
    }

    pub fn with_extension(self, extension: Option<String>) -> (r: Self)
        ensures
            r.source_path == self.source_path,
            r.extension == extension,
            r.file_size == self.file_size,
            r.modified_time == self.modified_time,
            r.diagnostics == self.diagnostics,
    {
        AssetMetadata { extension, ..self }
    }

    pub fn with_file_size(self, file_size: Option<u64>) -> (r: Self)
        ensures
            r.source_path == self.source_path,
            r.extension == self.extension,
            r.file_size == file_size,
            r.modified_time == self.modified_time,
            r.diagnostics == self.diagnostics,
    {
        AssetMetadata { file_size, ..self }
    }

    pub fn with_modified_time(self, modified_time: Option<u64>) -> (r: Self)
        ensures
            r.source_path == self.source_path,
            r.extension == self.extension,
            r.file_size == self.file_size,
            r.modified_time == modified_time,
            r.diagnostics == self.diagnostics,
    {
        AssetMetadata { modified_time, ..self }
    }

    pub fn with_diagnostics(self, diagnostics: Vec<AssetDiagnostic>) -> (r: Self)
        ensures
            r.source_path == self.source_path,
            r.extension == self.extension,
            r.file_size == self.file_size,
            r.modified_time == self.modified_time,
            r.diagnostics == diagnostics,
    {
        AssetMetadata { diagnostics, ..self }
    }
}

impl Default for AssetMetadata {
    fn default() -> (r: Self)
        ensures
            r.source_path is None,
            r.extension is None,
            r.file_size is None,
            r.modified_time is None,
            r.diagnostics@.len() == 0,
    {
        Self::empty()
    }
}

/// One asset of a project: its identity, name, normalized path, kind and
/// what was read of its file.
#[derive(Debug, Clone, PartialEq, Eq)]
pub struct AssetRecord {
    pub id: AssetId,
    pub name: AssetName,
    pub path: AssetPath,
    pub source_path: Option<String>,
    pub kind: AssetKind,
    pub extension: Option<String>,
    pub file_size: Option<u64>,
    pub modified_time: Option<u64>,
    pub diagnostics: Vec<AssetDiagnostic>,
}

/// The text a record's name is taken from: the last component of its
/// normalized path, or the whole normalized path when that names no file.
pub open spec fn record_name_source(path: Seq<char>) -> Seq<char> {
    match file_name(path_components(path)) {
        Some(n) => n,
        None => path_text(path_components(path)),
    }
}

/// A record carries no file metadata yet.
pub open spec fn has_no_metadata(r: AssetRecord) -> bool {
    &&& r.source_path is None
    &&& r.extension is None
    &&& r.file_size is None
    &&& r.modified_time is None
    &&& r.diagnostics@.len() == 0
}

impl AssetRecord {
    /// A record for the asset at `path`, named after its last component.
    pub fn new(id: AssetId, path: &str, kind: AssetKind) -> (r: Result<Self, AssetError>)
        ensures
            path@.len() == 0 ==> r == Err::<Self, AssetError>(AssetError::EmptyAssetPath),
            path@.len() != 0 && all_whitespace(record_name_source(path@)) ==> r == Err::<
                Self,
                AssetError,
            >(AssetError::EmptyAssetName),
            path@.len() != 0 && !all_whitespace(record_name_source(path@)) ==> (r matches Ok(rec)
                && rec.id == id && rec.name@ == trim(record_name_source(path@)) && rec.path@
                == path_components(path@) && rec.kind == kind && has_no_metadata(rec)),
    {
        let path = match AssetPath::new(path) {
            Ok(p) => p,
            Err(e) => {
                return Err(e);
            },
        };
        let name = match path.file_name() {
            Some(n) => AssetName::new(n.as_str()),
            None => {
                let text = path.display();
                AssetName::new(text.as_str())
            },
        };
        match name {
            Ok(name) => Ok(
                AssetRecord {
                    id,
                    name,
                    path,
                    source_path: None,
                    kind,
                    extension: None,
                    file_size: None,
                    modified_time: None,
                    diagnostics: Vec::new(),
                },
            ),
            Err(e) => Err(e),
        }
    }

    /// A record from parts taken as they are, without validation.
    pub fn from_parts(id: AssetId, name: &str, path: &str, kind: AssetKind) -> (r: Self)
        ensures
            r.id == id,
            r.name@ == name@,
            r.path@ == path_components(path@),
            r.kind == kind,
            has_no_metadata(r),
    {
        AssetRecord {
            id,
            name: AssetName::from_unvalidated(name),
            path: AssetPath::from_unvalidated(path),
            source_path: None,
            kind,
            extension: None,
            file_size: None,
            modified_time: None,
            diagnostics: Vec::new(),
        }
    }

    /// The record with its file metadata replaced by `metadata`.
    pub fn with_metadata(self, metadata: AssetMetadata) -> (r: Self)
        ensures
            r.id == self.id,
            r.name == self.name,
            r.path == self.path,
            r.kind == self.kind,
            r.source_path == metadata.source_path,
            r.extension == metadata.extension,
            r.file_size == metadata.file_size,
            r.modified_time == metadata.modified_time,
            r.diagnostics == metadata.diagnostics,
    {
        AssetRecord {
            source_path: metadata.source_path,
            extension: metadata.extension,
            file_size: metadata.file_size,
            modified_time: metadata.modified_time,
            diagnostics: metadata.diagnostics,
            ..self
        }
    }

    /// A record whose kind is detected from the path: a folder for a
    /// directory, else the kind its extension names.
    pub fn with_detected_kind(id: AssetId, path: &str, is_directory: bool) -> (r: Result<
        Self,
        AssetError,
    >)
        ensures
            path@.len() == 0 ==> r == Err::<Self, AssetError>(AssetError::EmptyAssetPath),
            path@.len() != 0 && all_whitespace(record_name_source(path@)) ==> r == Err::<
                Self,
                AssetError,
            >(AssetError::EmptyAssetName),
            path@.len() != 0 && !all_whitespace(record_name_source(path@)) ==> (r matches Ok(rec)
                && rec.id == id && rec.name@ == trim(record_name_source(path@)) && rec.path@
                == path_components(path@) && rec.kind == (if is_directory {
                AssetKind::Folder
            } else {
                kind_for_optional_extension(path_extension(path@))
            }) && has_no_metadata(rec)),
    {
        let kind = detect_kind_from_path(path, is_directory);
        Self::new(id, path, kind)
    }
}

} // verus!
