//! The build context sent to the Docker engine when an image is built from
//! a Dockerfile: a tar archive holding the Dockerfile alone.
use vstd::prelude::*;
use crate::docker_error::DockerError;
use crate::text::owned;

verus! {

broadcast use vstd::string::group_string_axioms;

/// The bytes `tar::Builder` writes for an archive of one file `name` with
/// the text `content` and permission bits `mode` (a GNU header with the
/// size and checksum set, then the data, then the end-of-archive blocks).
pub uninterp spec fn single_file_tar(name: Seq<char>, content: Seq<char>, mode: u32) -> Seq<u8>;

/// A file name that `tar::Header::set_path` takes into a GNU header: one
/// path component of at most 100 bytes, made of ASCII letters, digits, `_`
/// and `-` (so no `/`, no `..` and no NUL byte).
pub open spec fn tar_plain_name(name: Seq<char>) -> bool {
    &&& 0 < name.len() <= 100
    &&& forall|i: int| 0 <= i < name.len() ==> {
        let c = #[trigger] name[i];
        ('a' <= c && c <= 'z') || ('A' <= c && c <= 'Z') || ('0' <= c && c <= '9') || c == '_' || c == '-'
    }
}

/// The step of writing a one-file archive that failed, with its message.
pub enum TarFailure {
    /// `Header::set_path`
    Path(String),
    /// `Builder::append`
    Append(String),
    /// `Builder::finish`
    Finish(String),
}

/// A tar archive of one file, through the `tar` crate: a GNU header for
/// `name` with the content's size and `mode`, the content, the end. The
/// archive is a function of the three arguments; what the `tar` crate's
/// errors say is not stated. `set_path` refuses only absolute paths, `..`,
/// components with `/`, NUL bytes and names over 100 bytes, and `append` and
/// `finish` write into a `Vec`, which does not fail, so a plain name succeeds.
#[verifier::external_body]
fn single_file_archive(name: &str, content: &str, mode: u32) -> (r: Result<Vec<u8>, TarFailure>)
    ensures
        r matches Ok(bytes) ==> bytes@ == single_file_tar(name@, content@, mode),
        tar_plain_name(name@) ==> r is Ok,
{
    let mut data = Vec::new();
    {
        let mut builder = tar::Builder::new(&mut data);
        let mut header = tar::Header::new_gnu();
        header.set_path(name).map_err(|e| TarFailure::Path(e.to_string()))?;
        header.set_size(content.len() as u64);
        header.set_mode(mode);
        header.set_cksum();
        builder.append(&header, content.as_bytes()).map_err(|e| TarFailure::Append(e.to_string()))?;
        builder.finish().map_err(|e| TarFailure::Finish(e.to_string()))?;
    }
    Ok(data)
}

/// The build context for a Dockerfile: an archive holding it as
/// `Dockerfile`, mode 0644. Writing it into memory always succeeds; a
/// failure would be a build failure naming the step.
pub fn dockerfile_context(dockerfile: &str) -> (r: Result<Vec<u8>, DockerError>)
    ensures
        r matches Ok(bytes) && bytes@ == single_file_tar("Dockerfile"@, dockerfile@, 0o644),
{
    proof {
        reveal_strlit("Dockerfile");
        assert(tar_plain_name("Dockerfile"@));
    }
    match single_file_archive("Dockerfile", dockerfile, 0o644) {
        Ok(bytes) => Ok(bytes),
        Err(failure) => {
            let (mut reason, detail) = match failure {
                TarFailure::Path(m) => (owned("Failed to set Dockerfile path: "), m),
                TarFailure::Append(m) => (owned("Failed to add Dockerfile to tar: "), m),
                TarFailure::Finish(m) => (owned("Failed to finish tar archive: "), m),
            };
            let ghost head = reason@;
            reason.append(detail.as_str());
            assert(head.is_prefix_of(reason@)) by {
                assert(reason@.subrange(0, head.len() as int) =~= head);
            }
            Err(DockerError::BuildFailed { reason })
        },
    }
}

} // verus!
