//! The work on one file.

use vstd::prelude::*;
use crate::error::{ErrorKind, SlimmerError};
use crate::models::path::{joined_parts, last_name, parts_of_text, path_text, FilePath};
use crate::models::stream::StreamInfo;

verus! {

/// One file to work on: where it is, where the result goes, and its tracks.
#[derive(Debug, Clone)]
pub struct ProcessingTask {
    /// The file to read.
    pub source_file: FilePath,
    /// The directory for the result.
    pub target_location: FilePath,
    /// The tracks of the file.
    pub streams: Vec<StreamInfo>,
    /// The name for the result, where it is not the name of the source.
    pub output_filename: Option<String>,
}

impl ProcessingTask {
    /// A task for a file whose tracks are known.
    pub fn new(
        source_file: FilePath,
        target_location: FilePath,
        streams: Vec<StreamInfo>,
        output_filename: Option<String>,
    ) -> (task: Self)
        ensures
            task.source_file == source_file,
            task.target_location == target_location,
            task.streams == streams,
            task.output_filename == output_filename,
    {
        Self { source_file, target_location, streams, output_filename }
    }

    /// The path of the result: the given name, or else the name of the
    /// source, in the target directory. A source without a file name and no
    /// given name is an error.
    pub fn generate_output_path(&self) -> (path: Result<FilePath, SlimmerError>)
        ensures
            path is Err <==> self.output_filename is None && last_name(self.source_file@) is None,
            path matches Ok(p) ==> p@ == match self.output_filename {
                Some(name) => joined_parts(self.target_location@, parts_of_text(name@)),
                None => self.target_location@.push(last_name(self.source_file@).unwrap()),
            },
            path matches Err(e) ==> e.kind == ErrorKind::Processing && e.message@
                == "Could not extract filename from source path"@,
    {
        match &self.output_filename {
            Some(name) => {
                let given = FilePath::parse(name.as_str());
                Ok(self.target_location.join(&given))
            },
            None => match self.source_file.file_name() {
                Some(name) => Ok(self.target_location.child(name.as_str())),
                None => Err(
                    SlimmerError {
                        kind: ErrorKind::Processing,
                        message: "Could not extract filename from source path".to_string(),
                    },
                ),
            },
        }
    }

    /// The name of the source for the user: its file name, or the whole path
    /// where it ends in none.
    pub fn source_filename(&self) -> (name: String)
        ensures
            name@ == match last_name(self.source_file@) {
                Some(n) => n,
                None => path_text(self.source_file@),
            },
    {
        match self.source_file.file_name() {
            Some(name) => name,
            None => self.source_file.to_text(),
        }
    }
}

} // verus!
