//! What the download and the tools of the demo do.

use crate::demo::{_frame_size, _share_more_than_three, _shared_words, mute_buffer, shared};
use crate::download_parakeet::{
    destination_dir, file_path, file_url, model_files, refusal, Download, DownloadStep,
};
use crate::text::{lowercase, words};
use vstd::prelude::*;
use vstd::string::*;

verus! {

/// Files come from one address and go to one directory, under their own names.
pub proof fn law_model_files_keep_their_names(
    filename: &str,
    url: String,
    path: String,
    dir: String,
    files: Vec<String>,
)
    requires
        call_ensures(file_url, (filename,), url),
        call_ensures(file_path, (filename,), path),
        call_ensures(destination_dir, (), dir),
        call_ensures(model_files, (), files),
    ensures
        url@
            == "https://huggingface.co/altunenes/parakeet-rs/resolve/main/realtime_eou_120m-v1-onnx"@
            + "/"@ + filename@,
        path@ == dir@ + "/"@ + filename@,
        dir@ == "./models/parakeet-eou"@,
        files@.len() == 3,
        files@[0]@ == "tokenizer.json"@,
        files@[1]@ == "decoder_joint.onnx"@,
        files@[2]@ == "encoder.onnx"@,
{
}

/// A response is refused exactly if it is no success, with its status.
pub proof fn law_failed_downloads_are_refused(success: bool, status: &str, error: Option<String>)
    requires
        call_ensures(refusal, (success, status), error),
    ensures
        error is Some <==> !success,
        error matches Some(text) ==> text@ == "HTTP "@ + status@,
{
}

/// Every byte read is written and counted; a download ends with an empty read.
pub proof fn law_every_byte_is_written(download: &mut Download, n: usize, step: DownloadStep)
    requires
        call_ensures(Download::on_read, (download, n), step),
    ensures
        step is Done <==> n == 0,
        step matches DownloadStep::Write(m) ==> m == n,
        final(download).downloaded == old(download).downloaded + n,
        final(download).total == old(download).total,
{
}

/// A new download has received nothing.
pub proof fn law_new_download(total: Option<u64>, download: Download)
    requires
        call_ensures(Download::new, (total,), download),
    ensures
        download.downloaded == 0,
        download.total == total,
{
}

/// A frame has a fiftieth of the rate in samples, to within half a sample; halves
/// are rounded up.
pub proof fn law_frame_is_a_fiftieth(rate: u32, samples: usize)
    requires
        call_ensures(_frame_size, (rate,), samples),
    ensures
        2 * rate - 50 < 100 * samples <= 2 * rate + 50,
{
}

/// Muting makes every sample zero.
pub proof fn law_mute_buffer(buffer: &mut [u32])
    requires
        call_ensures(mute_buffer, (buffer,), ()),
    ensures
        final(buffer)@.len() == old(buffer)@.len(),
        forall|i: int| 0 <= i < old(buffer)@.len() ==> #[trigger] final(buffer)@[i] == 0,
{
}

/// Whether a word stands in a list, regardless of ASCII case.
pub open spec fn stands_in(word: Seq<char>, list: Seq<Seq<char>>) -> bool {
    exists|i: int| 0 <= i < list.len() && lowercase(#[trigger] list[i]) == lowercase(word)
}

/// Words are looked up one by one: one more word adds itself if it stands in the
/// list, and nothing if it does not.
pub proof fn law_words_are_looked_up_one_by_one(a: Seq<Seq<char>>, b: Seq<Seq<char>>, word: Seq<char>)
    ensures
        shared(a, Seq::empty()) == Seq::<Seq<char>>::empty(),
        shared(a, b.push(word)) == if stands_in(word, a) {
            shared(a, b).push(lowercase(word))
        } else {
            shared(a, b)
        },
{
    assert(b.push(word).drop_last() =~= b);
}

/// The shared words are listed up to the fourth; there are more than three exactly
/// if there is a fourth.
pub proof fn law_shared_words(a: &str, b: &str, found: Vec<Vec<char>>, yes: bool)
    requires
        call_ensures(_shared_words, (a, b), found),
        call_ensures(_share_more_than_three, (a, b), yes),
    ensures
        found@.len() == if shared(words(a@), words(b@)).len() < 4 {
            shared(words(a@), words(b@)).len()
        } else {
            4
        },
        forall|i: int|
            0 <= i < found@.len() ==> (#[trigger] found@[i])@ == shared(words(a@), words(b@))[i],
        yes <==> found@.len() == 4,
{
    let list = crate::text::contents(found@);
    assert(list.len() == found@.len());
    assert forall|i: int| 0 <= i < found@.len() implies (#[trigger] found@[i])@ == shared(
        words(a@),
        words(b@),
    )[i] by {
        assert(list[i] == found@[i]@);
    }
}

} // verus!
