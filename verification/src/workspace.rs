use vstd::prelude::*;
use vstd::string::StringExecFns;

verus! {

/// The deterministic path of a job's on-disk workspace: a fixed prefix
/// followed by the job id's text.
pub fn get_tmp_folder_path(uuid: &String) -> (r: String)
    ensures
        r@ == "./tmp_"@ + uuid@,
{
    let mut r: String = "./tmp_".to_owned();
    r.append(uuid.as_str());
    r
}

} // verus!
