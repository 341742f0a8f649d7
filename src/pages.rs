use vstd::prelude::*;
use crate::config::Settings;

verus! {

/// The page up to the title.
pub open spec fn index_head() -> Seq<char> {
    r#"
<html>

<head>
  <title>
    "#@
}

/// From the title to the first example link.
pub open spec fn index_before_first_url() -> Seq<char> {
    r#"
  </title>
</head>

<body>
  <p>
    Use curl to upload:
    <br>
    <code>
    curl -F file=@"[file]" "#@
}

/// Between the two example links.
pub open spec fn index_between_urls() -> Seq<char> {
    r#"
    </code>
    <br>
    If key is enabled then a field "key" might be required in which case it would be
    <br>
    <code>
     curl -F file=@"[file]" -F "key=[key]" "#@
}

/// From the second example link to the end.
pub open spec fn index_tail() -> Seq<char> {
    r#"
    </code>
  </p>
  <form method="POST" enctype="multipart/form-data">
      <label for="key">Key: </label>
      <input type="text" id="key"> <br>
      <input type="file" name="file" id="file">
      <input type="hidden" name="custom" id="true">
      <input type="submit" value="Upload">
  </form>

</body>

</html>
"#@
}

/// The help page: usage instructions with example commands against the
/// base URL, and an upload form, under the configured title.
pub open spec fn index_page(title: Seq<char>, user_url: Seq<char>) -> Seq<char> {
    index_head() + title + index_before_first_url() + user_url + index_between_urls() + user_url
        + index_tail()
}

/// Renders the help page.
pub fn index(settings: &Settings) -> (r: String)
    ensures
        r@ == index_page(settings@.title, settings@.user_url),
{
    let mut page = String::from_str(r#"
<html>

<head>
  <title>
    "#);
    page.append(settings.title.as_str());
    page.append(r#"
  </title>
</head>

<body>
  <p>
    Use curl to upload:
    <br>
    <code>
    curl -F file=@"[file]" "#);
    page.append(settings.user_url.as_str());
    page.append(r#"
    </code>
    <br>
    If key is enabled then a field "key" might be required in which case it would be
    <br>
    <code>
     curl -F file=@"[file]" -F "key=[key]" "#);
    page.append(settings.user_url.as_str());
    page.append(r#"
    </code>
  </p>
  <form method="POST" enctype="multipart/form-data">
      <label for="key">Key: </label>
      <input type="text" id="key"> <br>
      <input type="file" name="file" id="file">
      <input type="hidden" name="custom" id="true">
      <input type="submit" value="Upload">
  </form>

</body>

</html>
"#);
    page
}

} // verus!
