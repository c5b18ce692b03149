//! Initramfs build planning.
//!
//! Decides the paths of the image build: where the generated init script
//! is written, where the finished archive lands, and where the payload
//! sits inside the guest. The build itself (pulling the base image,
//! packing the cpio archive) runs in the surrounding binary.
use vstd::prelude::*;

verus! {

/// Builds initramfs images inside a working directory.
#[derive(Debug)]
pub struct Builder {
    pub work_dir: String,
}

impl Builder {
    /// A builder over the given working directory.
    pub fn new(work_dir: &str) -> (r: Self)
        ensures
            r.work_dir@ == work_dir@,
    {
        Builder { work_dir: work_dir.to_owned() }
    }

    /// Where the generated init script is written before the build.
    pub fn init_script_path(&self) -> (r: String)
        ensures
            r@ == self.work_dir@ + "/init.sh"@,
    {
        let mut s = self.work_dir.clone();
        s.append("/init.sh");
        s
    }

    /// Where the finished archive lands, named after the runtime's source
    /// extension.
    pub fn image_output_path(&self, extension: &str) -> (r: String)
        ensures
            r@ == self.work_dir@ + "/agent-"@ + extension@ + ".cpio.gz"@,
    {
        let mut s = self.work_dir.clone();
        s.append("/agent-");
        s.append(extension);
        s.append(".cpio.gz");
        s
    }
}

/// Where the payload sits inside the guest, named after the runtime's
/// source extension.
pub fn code_dest_path(extension: &str) -> (r: String)
    ensures
        r@ == "/lambda/code."@ + extension@,
{
    let mut s = String::new();
    s.append("/lambda/code.");
    s.append(extension);
    s
}

} // verus!
