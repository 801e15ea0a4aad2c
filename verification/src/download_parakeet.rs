//! Download of the Parakeet model files.

use vstd::prelude::*;
use vstd::string::*;

verus! {

/// The directory that the files are saved to.
pub open spec fn destination() -> Seq<char> {
    "./models/parakeet-eou"@
}

/// Where the files come from.
pub open spec fn origin() -> Seq<char> {
    "https://huggingface.co/altunenes/parakeet-rs/resolve/main/realtime_eou_120m-v1-onnx"@
}

/// The directory that the files are saved to.
pub fn destination_dir() -> (dir: String)
    ensures
        dir@ == destination(),
{
    String::from_str("./models/parakeet-eou")
}

/// The files of the model, in the order in which they are fetched.
pub fn model_files() -> (files: Vec<String>)
    ensures
        files@.len() == 3,
        files@[0]@ == "tokenizer.json"@,
        files@[1]@ == "decoder_joint.onnx"@,
        files@[2]@ == "encoder.onnx"@,
{
    let mut files: Vec<String> = Vec::new();
    files.push(String::from_str("tokenizer.json"));
    files.push(String::from_str("decoder_joint.onnx"));
    files.push(String::from_str("encoder.onnx"));
    files
}

/// The address of a model file.
pub fn file_url(filename: &str) -> (url: String)
    ensures
        url@ == origin() + "/"@ + filename@,
{
    String::from_str(
        "https://huggingface.co/altunenes/parakeet-rs/resolve/main/realtime_eou_120m-v1-onnx",
    ).concat("/").concat(filename)
}

/// The path that a model file is saved to.
pub fn file_path(filename: &str) -> (path: String)
    ensures
        path@ == destination() + "/"@ + filename@,
{
    destination_dir().concat("/").concat(filename)
}

/// The error for a response with this status, given whether it is a success.
pub fn refusal(success: bool, status: &str) -> (error: Option<String>)
    ensures
        success <==> error is None,
        error matches Some(text) ==> text@ == "HTTP "@ + status@,
{
    if success {
        None
    } else {
        Some(String::from_str("HTTP ").concat(status))
    }
}

/// What a read of the response leads to.
#[derive(Debug, Clone, Copy, PartialEq, Eq, Structural)]
pub enum DownloadStep {
    /// Write the bytes read.
    Write(usize),
    /// The file is complete.
    Done,
}

/// How far a download has come.
#[derive(Debug, Clone, Copy, PartialEq, Eq, Structural)]
pub struct Download {
    /// Bytes received.
    pub downloaded: u64,
    /// Bytes in all, if the server said.
    pub total: Option<u64>,
}

impl Download {
    /// A download of which nothing was received.
    pub fn new(total: Option<u64>) -> (download: Self)
        ensures
            download == (Download { downloaded: 0, total }),
    {
        Download { downloaded: 0, total }
    }

    /// Handles a read of `n` bytes; a read of nothing is the end.
    pub fn on_read(&mut self, n: usize) -> (step: DownloadStep)
        requires
            old(self).downloaded + n <= u64::MAX,
        ensures
            final(self).downloaded == old(self).downloaded + n,
            final(self).total == old(self).total,
            step == if n == 0 {
                DownloadStep::Done
            } else {
                DownloadStep::Write(n)
            },
    {
        if n == 0 {
            return DownloadStep::Done;
        }
        self.downloaded = self.downloaded + n as u64;
        DownloadStep::Write(n)
    }
}

} // verus!
