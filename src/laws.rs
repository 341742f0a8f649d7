use vstd::prelude::*;
use crate::config::SettingsView;
use crate::naming::{generated_name, valid_prefix};
use crate::reply::{text_reply, Status};
use crate::upload::{bad_key_text, joined, key_accepted, upload_plan, upload_reply, StepView};

verus! {

proof fn joined_injective(base: Seq<char>, a: Seq<char>, b: Seq<char>)
    requires
        joined(base, a) == joined(base, b),
    ensures
        a == b,
{
    reveal_strlit("/");
    let n = base.len() + 1int;
    assert(a =~= joined(base, a).subrange(n, joined(base, a).len() as int));
    assert(b =~= joined(base, b).subrange(n, joined(base, b).len() as int));
}

/// With no key required, an upload with a file name is stored at the path
/// that a later request for the last segment of the returned link reads: the
/// link is the base URL, a slash and the stored name, and whatever bytes were
/// stored there are the bytes fetched.
pub proof fn upload_then_fetch(
    s: SettingsView,
    key: Seq<char>,
    raw_name: Seq<char>,
    prefix: Seq<char>,
    dir: Map<Seq<char>, Seq<u8>>,
    bytes: Seq<u8>,
)
    requires
        s.key is None,
        raw_name.len() > 0,
    ensures
        upload_plan(s, key, Some(raw_name), prefix) == (StepView::Store {
            new_name: generated_name(prefix, raw_name),
            path: joined(s.root_dir, generated_name(prefix, raw_name)),
        }),
        upload_reply(s, generated_name(prefix, raw_name), true, false) == text_reply(
            Status::Success,
            joined(s.user_url, generated_name(prefix, raw_name)),
        ),
        joined(s.user_url, generated_name(prefix, raw_name)).subrange(
            s.user_url.len() + 1int,
            joined(s.user_url, generated_name(prefix, raw_name)).len() as int,
        ) == generated_name(prefix, raw_name),
        dir.insert(joined(s.root_dir, generated_name(prefix, raw_name)), bytes)[joined(
            s.root_dir,
            generated_name(prefix, raw_name),
        )] == bytes,
{
    reveal_strlit("/");
    let url = joined(s.user_url, generated_name(prefix, raw_name));
    assert(url.subrange(s.user_url.len() + 1int, url.len() as int) =~= generated_name(prefix, raw_name));
}

/// When a key is required and the presented one differs, the upload is
/// refused with `400` and nothing is stored.
pub proof fn wrong_key_stores_nothing(
    s: SettingsView,
    key: Seq<char>,
    raw_name: Option<Seq<char>>,
    prefix: Seq<char>,
)
    requires
        s.key is Some,
        s.key.unwrap() != key,
    ensures
        upload_plan(s, key, raw_name, prefix) == StepView::Reject(
            text_reply(Status::BadRequest, bad_key_text()),
        ),
{
}

/// An upload whose file name is missing or empty is refused with `400` and
/// nothing is stored.
pub proof fn nameless_upload_stores_nothing(
    s: SettingsView,
    key: Seq<char>,
    raw_name: Option<Seq<char>>,
    prefix: Seq<char>,
)
    requires
        raw_name is None || raw_name.unwrap().len() == 0,
    ensures
        upload_plan(s, key, raw_name, prefix) is Reject,
        upload_plan(s, key, raw_name, prefix)->Reject_0.status == Status::BadRequest,
{
}

/// Two accepted uploads of the same file name that drew different prefixes
/// are stored at different paths, so storing the second keeps the first: each
/// path then holds its own bytes.
pub proof fn distinct_uploads_kept_apart(
    s: SettingsView,
    key: Seq<char>,
    raw_name: Seq<char>,
    prefix_a: Seq<char>,
    prefix_b: Seq<char>,
    dir: Map<Seq<char>, Seq<u8>>,
    bytes_a: Seq<u8>,
    bytes_b: Seq<u8>,
)
    requires
        key_accepted(s.key, key),
        raw_name.len() > 0,
        valid_prefix(prefix_a),
        valid_prefix(prefix_b),
        prefix_a != prefix_b,
    ensures
        upload_plan(s, key, Some(raw_name), prefix_a)->Store_path != upload_plan(
            s,
            key,
            Some(raw_name),
            prefix_b,
        )->Store_path,
        dir.insert(upload_plan(s, key, Some(raw_name), prefix_a)->Store_path, bytes_a).insert(
            upload_plan(s, key, Some(raw_name), prefix_b)->Store_path,
            bytes_b,
        )[upload_plan(s, key, Some(raw_name), prefix_a)->Store_path] == bytes_a,
        dir.insert(upload_plan(s, key, Some(raw_name), prefix_a)->Store_path, bytes_a).insert(
            upload_plan(s, key, Some(raw_name), prefix_b)->Store_path,
            bytes_b,
        )[upload_plan(s, key, Some(raw_name), prefix_b)->Store_path] == bytes_b,
{
    reveal_strlit("-");
    let name_a = generated_name(prefix_a, raw_name);
    let name_b = generated_name(prefix_b, raw_name);
    if joined(s.root_dir, name_a) == joined(s.root_dir, name_b) {
        joined_injective(s.root_dir, name_a, name_b);
        assert(prefix_a =~= name_a.subrange(0, prefix_a.len() as int));
        assert(prefix_b =~= name_b.subrange(0, prefix_b.len() as int));
    }
}

} // verus!
