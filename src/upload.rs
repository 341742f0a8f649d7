use vstd::prelude::*;
use crate::config::{Settings, SettingsView};
use crate::naming::{generated_name, name_with_prefix, random_prefix, valid_prefix};
use crate::reply::{raw_reply, text_reply, Body, Reply, ReplyView, Status};

verus! {

/// What to do with an upload once it has been judged: answer at once and
/// store nothing, or copy the payload to `path` under `new_name`.
#[derive(Debug)]
pub enum UploadStep {
    Reject(Reply),
    Store { new_name: String, path: String },
}

pub ghost enum StepView {
    Reject(ReplyView),
    Store { new_name: Seq<char>, path: Seq<char> },
}

impl View for UploadStep {
    type V = StepView;

    open spec fn view(&self) -> StepView {
        match self {
            UploadStep::Reject(r) => StepView::Reject(r@),
            UploadStep::Store { new_name, path } => StepView::Store {
                new_name: new_name@,
                path: path@,
            },
        }
    }
}

pub open spec fn str_opt_view(o: Option<&str>) -> Option<Seq<char>> {
    match o {
        Some(s) => Some(s@),
        None => None,
    }
}

/// `name` inside `base`, joined by a slash: a file's path in the storage
/// directory, or its download link under the base URL.
pub open spec fn joined(base: Seq<char>, name: Seq<char>) -> Seq<char> {
    base + "/"@ + name
}

/// An upload may go on: no key is required, or the presented one equals it.
pub open spec fn key_accepted(required: Option<Seq<char>>, presented: Seq<char>) -> bool {
    match required {
        Some(k) => k == presented,
        None => true,
    }
}

pub open spec fn bad_key_text() -> Seq<char> {
    "key not found in the header"@
}

pub open spec fn bad_name_text() -> Seq<char> {
    "File name invalid"@
}

pub open spec fn store_failed_text() -> Seq<char> {
    "Some stupid internal error occurred"@
}

/// How an upload with this key, client file name and drawn prefix is judged:
/// the key first, then the file name.
pub open spec fn upload_plan(
    s: SettingsView,
    key: Seq<char>,
    raw_name: Option<Seq<char>>,
    prefix: Seq<char>,
) -> StepView {
    if !key_accepted(s.key, key) {
        StepView::Reject(text_reply(Status::BadRequest, bad_key_text()))
    } else if raw_name is None || raw_name.unwrap().len() == 0 {
        StepView::Reject(text_reply(Status::BadRequest, bad_name_text()))
    } else {
        StepView::Store {
            new_name: generated_name(prefix, raw_name.unwrap()),
            path: joined(s.root_dir, generated_name(prefix, raw_name.unwrap())),
        }
    }
}

/// The HTML fragment that links to an uploaded file.
pub open spec fn link_html(url: Seq<char>) -> Seq<char> {
    "Here is your file: <a href=\""@ + url + "\">"@ + url + "</a>"@
}

/// The reply once the copy to storage has finished, or failed.
pub open spec fn upload_reply(s: SettingsView, new_name: Seq<char>, copied: bool, custom: bool) -> ReplyView {
    if !copied {
        text_reply(Status::InternalServerError, store_failed_text())
    } else if custom {
        ReplyView {
            status: Status::SeeOther,
            html: true,
            text: link_html(joined(s.user_url, new_name)),
        }
    } else {
        text_reply(Status::Success, joined(s.user_url, new_name))
    }
}

/// `base`, a slash, then `name`.
pub fn join(base: &str, name: &str) -> (r: String)
    ensures
        r@ == joined(base@, name@),
{
    let mut s = String::from_str(base);
    s.append("/");
    s.append(name);
    s
}

/// Judges an upload given the prefix to name it with: a wrong key, then a
/// missing or empty file name, are refused with `400`; otherwise the payload
/// is to be stored in the storage directory under a generated name.
pub fn plan_upload(settings: &Settings, key: &str, raw_name: Option<&str>, prefix: &str) -> (r: UploadStep)
    ensures
        r@ == upload_plan(settings@, key@, str_opt_view(raw_name), prefix@),
{
    let accepted = match &settings.key {
        Some(k) => *k == String::from_str(key),
        None => true,
    };
    if !accepted {
        return UploadStep::Reject(raw_reply(Status::BadRequest, "key not found in the header"));
    }
    match raw_name {
        Some(name) => {
            if name.is_empty() {
                UploadStep::Reject(raw_reply(Status::BadRequest, "File name invalid"))
            } else {
                let new_name = name_with_prefix(prefix, name);
                let path = join(settings.root_dir.as_str(), new_name.as_str());
                UploadStep::Store { new_name, path }
            }
        },
        None => UploadStep::Reject(raw_reply(Status::BadRequest, "File name invalid")),
    }
}

/// Judges an upload, drawing a fresh random prefix for the stored name.
pub fn begin_upload(settings: &Settings, key: &str, raw_name: Option<&str>) -> (r: UploadStep)
    ensures
        exists|p: Seq<char>|
            valid_prefix(p) && r@ == upload_plan(settings@, key@, str_opt_view(raw_name), p),
{
    let prefix = random_prefix();
    plan_upload(settings, key, raw_name, prefix.as_str())
}

/// Answers an upload stored under `new_name`: `500` with a generic text when
/// the copy failed; else the download link, as plain text with `200`, or when
/// the client asked for the alternate reply, as an HTML link with `303`.
pub fn finish_upload(settings: &Settings, new_name: &str, copied: bool, custom: bool) -> (r: Reply)
    ensures
        r@ == upload_reply(settings@, new_name@, copied, custom),
{
    if !copied {
        return raw_reply(Status::InternalServerError, "Some stupid internal error occurred");
    }
    let url = join(settings.user_url.as_str(), new_name);
    if custom {
        let mut html = String::from_str("Here is your file: <a href=\"");
        html.append(url.as_str());
        html.append("\">");
        html.append(url.as_str());
        html.append("</a>");
        Reply { status: Status::SeeOther, body: Body::Html(html) }
    } else {
        Reply { status: Status::Success, body: Body::Raw(url) }
    }
}

/// Where a requested file lies in the storage directory.
pub fn file_path(settings: &Settings, filename: &str) -> (r: String)
    ensures
        r@ == joined(settings@.root_dir, filename@),
{
    join(settings.root_dir.as_str(), filename)
}

} // verus!
