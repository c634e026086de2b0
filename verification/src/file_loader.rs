use vstd::prelude::*;
use vstd::string::StrSliceExecFns;
use vstd::string::StringExecFns;

verus! {

/// Whether a staged transform turns plaintext into ciphertext or back.
#[derive(Clone, Copy, PartialEq, Eq, Structural, Debug)]
pub enum Direction {
    Encrypt,
    Decrypt,
}

/// Why a staging request was refused. Every case is reported to the caller;
/// staging never panics.
#[derive(Clone, Copy, PartialEq, Eq, Structural, Debug)]
pub enum StageError {
    /// The input path names no existing file.
    SourceNotFound,
    /// The derived destination path already names a file; staging refuses to
    /// overwrite it.
    DestinationAlreadyExists,
    /// The source of a decryption is shorter than the header it should carry.
    SourceTooShort,
    /// The input path of a decryption is shorter than the configured suffix or
    /// does not end with it.
    InvalidPath,
    /// The destination of an encryption would be larger than a size can hold.
    SourceTooLarge,
    /// The platform refused an open, resize or mapping operation.
    IoFailure,
}

/// Where a staged transform reads and writes: the validated source path, the
/// derived destination path, and the size the destination file must be given.
#[derive(Clone, Debug)]
pub struct StagePlan {
    pub source_path: String,
    pub destination_path: String,
    pub destination_length: usize,
}

/// Stages files for one transform direction: `filename_extension` marks
/// encrypted files (a ciphertext path is the plaintext path, a dot and the
/// extension), and `header_size` bytes of fixed metadata precede the payload
/// in every ciphertext file. `header_size` counts the 16-byte parameter
/// header together with whatever further fixed bytes (a nonce, a tag) the
/// cipher engine prepends; it is configuration, so an engine can claim more
/// room without touching the staging rules.
pub struct FileLoader {
    pub direction: Direction,
    pub filename_extension: String,
    pub header_size: usize,
}

/// The ciphertext path that belongs to a plaintext path: the path, a dot and
/// the extension.
pub open spec fn spec_ciphertext_path(path: Seq<char>, extension: Seq<char>) -> Seq<char> {
    path + seq!['.'] + extension
}

/// The plaintext path that belongs to a ciphertext path: the path with the dot
/// and the extension stripped, or nothing when the path is shorter than that
/// suffix or does not end with it.
pub open spec fn spec_plaintext_path(path: Seq<char>, extension: Seq<char>) -> Option<Seq<char>> {
    let stem_length = path.len() - extension.len() - 1;
    if path.len() > extension.len() && path.subrange(stem_length, path.len() as int) == seq!['.']
        + extension {
        Some(path.subrange(0, stem_length))
    } else {
        None
    }
}

impl FileLoader {
    /// The path of the file that staging will create: with the extension
    /// appended when encrypting, with it stripped when decrypting.
    pub open spec fn spec_destination_path(self, path: Seq<char>) -> Option<Seq<char>> {
        match self.direction {
            Direction::Encrypt => Some(spec_ciphertext_path(path, self.filename_extension@)),
            Direction::Decrypt => spec_plaintext_path(path, self.filename_extension@),
        }
    }

    /// The size of the file that staging will create: the source size plus the
    /// header when encrypting, minus it when decrypting; nothing when the sum
    /// cannot be represented or the source cannot carry a header.
    pub open spec fn spec_destination_length(self, source_length: usize) -> Option<usize> {
        match self.direction {
            Direction::Encrypt => if source_length + self.header_size <= usize::MAX {
                Some((source_length + self.header_size) as usize)
            } else {
                None
            },
            Direction::Decrypt => if source_length >= self.header_size {
                Some((source_length - self.header_size) as usize)
            } else {
                None
            },
        }
    }

    /// Derive the destination path from the input path by the
    /// filename-extension convention.
    pub fn derive_destination_path(&self, path: &String) -> (r: Result<String, StageError>)
        ensures
            (r is Ok) <==> (self.spec_destination_path(path@) is Some),
            r is Ok ==> Some(r->Ok_0@) == self.spec_destination_path(path@),
            r is Err ==> r->Err_0 == StageError::InvalidPath && self.direction
                == Direction::Decrypt,
    {
        match self.direction {
            Direction::Encrypt => {
                let mut destination = path.clone();
                destination.append(".");
                destination.append(self.filename_extension.as_str());
                proof {
                    reveal_strlit(".");
                    assert(destination@ =~= spec_ciphertext_path(
                        path@,
                        self.filename_extension@,
                    ));
                }
                Ok(destination)
            },
            Direction::Decrypt => {
                let path_length = path.as_str().unicode_len();
                let extension_length = self.filename_extension.as_str().unicode_len();
                if path_length <= extension_length {
                    return Err(StageError::InvalidPath);
                }
                let stem_length = path_length - extension_length - 1;
                let ghost suffix = path@.subrange(stem_length as int, path_length as int);
                let dot_found = path.as_str().get_char(stem_length) == '.';
                let tail = path.as_str().substring_char(stem_length + 1, path_length);
                let extension_found = String::from_str(tail).eq(&self.filename_extension);
                if dot_found && extension_found {
                    proof {
                        assert(suffix =~= seq!['.'] + self.filename_extension@);
                    }
                    let stem = path.as_str().substring_char(0, stem_length);
                    Ok(String::from_str(stem))
                } else {
                    // Had the path carried the suffix, both checks above
                    // would have passed.
                    proof {
                        if suffix == seq!['.'] + self.filename_extension@ {
                            assert(path@[stem_length as int] == suffix[0]);
                            assert(tail@ =~= suffix.subrange(1, suffix.len() as int));
                            assert(tail@ =~= self.filename_extension@);
                        }
                    }
                    Err(StageError::InvalidPath)
                }
            },
        }
    }

    /// Compute the destination file's size from the source file's size,
    /// guarding the arithmetic in both directions.
    pub fn destination_length(&self, source_length: usize) -> (r: Result<usize, StageError>)
        ensures
            (r is Ok) <==> (self.spec_destination_length(source_length) is Some),
            r is Ok ==> Some(r->Ok_0) == self.spec_destination_length(source_length),
            r is Err ==> r->Err_0 == (match self.direction {
                Direction::Encrypt => StageError::SourceTooLarge,
                Direction::Decrypt => StageError::SourceTooShort,
            }),
    {
        match self.direction {
            Direction::Encrypt => match source_length.checked_add(self.header_size) {
                Some(destination_length) => Ok(destination_length),
                None => Err(StageError::SourceTooLarge),
            },
            Direction::Decrypt => {
                if source_length >= self.header_size {
                    Ok(source_length - self.header_size)
                } else {
                    Err(StageError::SourceTooShort)
                }
            },
        }
    }

    /// Decide one staging request. `source_exists` and `destination_exists`
    /// report whether `path` and the derived destination path name existing
    /// files; `source_length` is the source file's size in bytes. The checks
    /// run in the order the failure conditions are stated, and a plan comes
    /// back exactly when all of them pass.
    pub fn stage(
        &self,
        path: &String,
        source_exists: bool,
        destination_exists: bool,
        source_length: usize,
    ) -> (r: Result<StagePlan, StageError>)
        ensures
            (r is Ok) <==> (source_exists && self.spec_destination_path(path@) is Some
                && !destination_exists && self.spec_destination_length(source_length) is Some),
            r is Ok ==> r->Ok_0.source_path@ == path@ && Some(r->Ok_0.destination_path@)
                == self.spec_destination_path(path@) && Some(r->Ok_0.destination_length)
                == self.spec_destination_length(source_length),
            !source_exists ==> r is Err && r->Err_0 == StageError::SourceNotFound,
            source_exists && self.spec_destination_path(path@) is None ==> r is Err && r->Err_0
                == StageError::InvalidPath,
            source_exists && self.spec_destination_path(path@) is Some && destination_exists
                ==> r is Err && r->Err_0 == StageError::DestinationAlreadyExists,
            source_exists && self.spec_destination_path(path@) is Some && !destination_exists
                && self.spec_destination_length(source_length) is None ==> r is Err && r->Err_0
                == (match self.direction {
                Direction::Encrypt => StageError::SourceTooLarge,
                Direction::Decrypt => StageError::SourceTooShort,
            }),
    {
        if !source_exists {
            return Err(StageError::SourceNotFound);
        }
        let destination_path = match self.derive_destination_path(path) {
            Ok(destination_path) => destination_path,
            Err(e) => {
                return Err(e);
            },
        };
        if destination_exists {
            return Err(StageError::DestinationAlreadyExists);
        }
        let destination_length = match self.destination_length(source_length) {
            Ok(destination_length) => destination_length,
            Err(e) => {
                return Err(e);
            },
        };
        Ok(StagePlan { source_path: path.clone(), destination_path, destination_length })
    }
}

} // verus!
