use vstd::prelude::*;

use crate::error::{MigError, MigErrorKind};

verus! {

/// The space needed to replace a file of `dst_size` bytes (none when there
/// is no such file) by one of `src_size` bytes; the source must exist.
pub fn get_file_required_space(src_size: Option<u64>, dst_size: Option<u64>) -> (r: Result<
    u64,
    MigError,
>)
    ensures
        match src_size {
            None => r matches Err(e) && e.kind == MigErrorKind::NotFound,
            Some(s) => r == Ok::<u64, MigError>(
                match dst_size {
                    Some(d) => if s > d {
                        (s - d) as u64
                    } else {
                        0
                    },
                    None => s,
                },
            ),
        },
{
    match src_size {
        None => Err(MigError::from_remark(MigErrorKind::NotFound, "Required file could not be found")),
        Some(s) => match dst_size {
            Some(d) => {
                if s > d {
                    Ok(s - d)
                } else {
                    Ok(0)
                }
            },
            None => Ok(s),
        },
    }
}

} // verus!
