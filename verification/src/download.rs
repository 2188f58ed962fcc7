//! Downloads: where a requested download is saved, and what happens when one
//! finishes.
use vstd::prelude::*;
use crate::dedup::{
    documented_extension, documented_stem, lemma_numbered_plain, lemma_sanitized_is_plain,
    numbered, plain_file_name, reports, unique_outcome, unique_path, CANDIDATE_BOUND,
};
use crate::filename::{fallback_name, sanitized};
use crate::text::{owned_text_view, text_view};
use crate::web::{filename_from_url, raw_download_name, WebUrl};

verus! {

/// The native notification shown when a download completes.
pub struct DownloadNotice {
    pub title: String,
    pub body: String,
}

/// The file name shown for a finished download: its own, or `download`.
pub open spec fn display_name(file_name: Option<Seq<char>>) -> Seq<char> {
    match file_name {
        Some(n) => n,
        None => fallback_name(),
    }
}

/// The body of the completion notice: `Saved “name” to Downloads`.
pub open spec fn notice_body(name: Seq<char>) -> Seq<char> {
    "Saved \u{201c}"@ + name + "\u{201d} to Downloads"@
}

/// The name a download from `url` starts from: the sanitized last segment of
/// its path.
pub open spec fn base_download_name(url: WebUrl) -> Seq<char> {
    sanitized(raw_download_name(url.path@))
}

/// Computes the file name under which a requested download is saved in the
/// Downloads folder: the sanitized last segment of the URL's path, with
/// ` (n)` added before the extension while `taken` reports that name as an
/// existing file. When the name and all its numbered candidates below 10000
/// are taken, `None`: the download gets no name and nothing is overwritten.
/// A name handed out is always a single plain path component, so the file
/// lands inside the Downloads folder.
pub fn download_file_name<F: Fn(&str) -> bool>(url: &WebUrl, taken: &F) -> (res: Option<String>)
    requires
        forall|s: &str| #[trigger] taken.requires((s,)),
    ensures
        unique_outcome(
            *taken,
            base_download_name(*url),
            documented_stem(base_download_name(*url)),
            documented_extension(base_download_name(*url)),
            owned_text_view(res),
        ),
        res matches Some(name) ==> reports(*taken, name@, false) && plain_file_name(name@),
{
    let base = filename_from_url(url);
    proof {
        lemma_sanitized_is_plain(raw_download_name(url.path@));
    }
    let res = unique_path(base.as_str(), taken);
    proof {
        let b = base@;
        if res is Some && owned_text_view(res) != Some(b) {
            let i = choose|i: int|
                1 <= i < CANDIDATE_BOUND && owned_text_view(res) == Some(
                    #[trigger] numbered(documented_stem(b), documented_extension(b), i as nat),
                ) && reports(
                    *taken,
                    numbered(documented_stem(b), documented_extension(b), i as nat),
                    false,
                ) && forall|j: int|
                    1 <= j < i ==> reports(
                        *taken,
                        #[trigger] numbered(documented_stem(b), documented_extension(b), j as nat),
                        true,
                    );
            lemma_numbered_plain(b, i as nat);
        }
    }
    res
}

/// The name shown for a finished download: its file name, or `download`
/// when it has none.
pub fn download_display_name(file_name: Option<&str>) -> (res: String)
    ensures
        res@ == display_name(text_view(file_name)),
{
    match file_name {
        Some(n) => n.to_string(),
        None => {
            let d = "download";
            proof {
                reveal_strlit("download");
                assert(d@ =~= fallback_name());
            }
            d.to_string()
        },
    }
}

/// The notice for a finished download: `Download complete`, with the body
/// `Saved “name” to Downloads`; only successful downloads get one.
pub fn finished_download_notice(success: bool, file_name: Option<&str>) -> (res: Option<DownloadNotice>)
    ensures
        res is Some <==> success,
        res matches Some(n) ==> n.title@ == "Download complete"@ && n.body@ == notice_body(
            display_name(text_view(file_name)),
        ),
{
    if !success {
        return None;
    }
    let name = download_display_name(file_name);
    let mut body = "Saved \u{201c}".to_string();
    body.append(name.as_str());
    body.append("\u{201d} to Downloads");
    Some(DownloadNotice { title: "Download complete".to_string(), body })
}

/// Records a finished download as the last one (the one Reveal in Finder
/// shows) when it succeeded and has a path; otherwise keeps the record.
pub fn record_finished<P>(last: &mut Option<P>, path: Option<P>, success: bool)
    ensures
        *final(last) == if success && path is Some { path } else { *old(last) },
{
    if success {
        if path.is_some() {
            *last = path;
        }
    }
}

} // verus!
