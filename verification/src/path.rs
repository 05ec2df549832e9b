//! File paths, with `/` between their components, and the URIs that name files.

use vstd::prelude::*;

verus! {

/// `rest` seen from `base`: an absolute `rest` stands for itself, any other is put behind `base`
/// and a separator.
pub open spec fn joined(base: Seq<char>, rest: Seq<char>) -> Seq<char> {
    if rest.len() > 0 && rest[0] == '/' {
        rest
    } else if base.len() == 0 || base.last() == '/' {
        base + rest
    } else {
        base.push('/') + rest
    }
}

/// `rest` seen from `base`.
pub fn join(base: &str, rest: &str) -> (path: String)
    ensures
        path@ == joined(base@, rest@),
{
    let base_len: usize = base.unicode_len();
    if rest.unicode_len() > 0 && rest.get_char(0) == '/' {
        rest.to_owned()
    } else {
        let mut path = base.to_owned();
        if base_len > 0 && base.get_char(base_len - 1) != '/' {
            path.append("/");
            proof {
                reveal_strlit("/");
                assert(path@ =~= base@.push('/'));
            }
        }
        path.append(rest);
        path
    }
}

/// A path that its URI holds as it is: absolute, of characters that stand for themselves between
/// single separators, with no component `.`. It may have components `..` and others that start
/// with a `.`.
pub open spec fn plain_path(path: Seq<char>) -> bool {
    &&& path.len() > 1
    &&& path[0] == '/'
    &&& path.last() != '/'
    &&& forall|i: int| 0 <= i < path.len() ==> plain_char(#[trigger] path[i])
    &&& forall|i: int| 0 < i < path.len() ==> !(#[trigger] idle_at(path, i))
}

/// Whether what is at `i`, behind a separator, leads nowhere: another separator, or a component
/// `.`.
pub open spec fn idle_at(path: Seq<char>, i: int) -> bool {
    &&& path[i - 1] == '/'
    &&& path[i] == '/' || (path[i] == '.' && (i + 1 == path.len() || path[i + 1] == '/'))
}

/// A separator, or a character that stands for itself in the path of a URI: an ASCII character that
/// prints, but for `"`, `#`, `%`, `<`, `>`, `?`, `\`, `` ` ``, `{` and `}`.
pub open spec fn plain_char(c: char) -> bool {
    &&& '!' <= c <= '~'
    &&& c != '"' && c != '#' && c != '%' && c != '<' && c != '>'
    &&& c != '?' && c != '\\' && c != '`' && c != '{' && c != '}'
}

/// A component of a plain path.
pub open spec fn plain_name(name: Seq<char>) -> bool {
    &&& name.len() > 0
    &&& !(name.len() == 1 && name[0] == '.')
    &&& forall|i: int| 0 <= i < name.len() ==> plain_char(#[trigger] name[i]) && name[i] != '/'
}

/// What has a plain name, seen from a plain path, is at a plain path.
pub proof fn lemma_plain_below(base: Seq<char>, name: Seq<char>)
    requires
        plain_path(base),
        plain_name(name),
    ensures
        plain_path(joined(base, name)),
{
    let path = joined(base, name);
    let n = base.len() as int;
    assert forall|i: int| 0 <= i < path.len() implies plain_char(#[trigger] path[i]) by {
        assert(path[i] == if i < n { base[i] } else if i == n { '/' } else { name[i - n - 1] });
    }
    assert forall|i: int| 0 < i < path.len() implies !(#[trigger] idle_at(path, i)) by {
        if i < n {
            assert(!idle_at(base, i));
        } else if i == n {
            assert(path[i - 1] == base.last());
        } else {
            assert(path[i] == name[i - n - 1]);
            assert(i == n + 1 || path[i - 1] == name[i - n - 2]);
            assert(i + 1 == path.len() || path[i + 1] == name[i - n]);
        }
    }
    assert(path.last() == name.last());
}

/// The text of an optional string.
pub open spec fn option_view(text: Option<String>) -> Option<Seq<char>> {
    match text {
        Some(text) => Some(text@),
        None => None,
    }
}

/// The URI that `lsp_types::Url::from_file_path` makes of a path.
pub uninterp spec fn file_url(path: Seq<char>) -> Option<Seq<char>>;

/// Calls `lsp_types::Url::from_file_path` and takes the text of the URL that it returns.
///
/// Claimed of it, on the Unix targets that these paths belong to: the URL depends on the path
/// alone; there is one exactly where the path is absolute; and that of a path which needs no
/// escapes and has neither doubled separators, nor one at its end, nor components `.` is the path
/// behind `file://`. How it escapes and shortens other paths is left unsaid.
#[verifier::external_body]
fn url_from_file_path(path: &str) -> (url: Option<String>)
    ensures
        option_view(url) == file_url(path@),
        (option_view(url) is Some) == (path@.len() > 0 && path@[0] == '/'),
        plain_path(path@) ==> option_view(url) == Some("file://"@ + path@),
{
    lsp_types::Url::from_file_path(path).ok().map(|url| url.to_string())
}

/// The URI of the file or folder at `path`, which is absolute or has none.
pub fn file_uri(path: &str) -> (uri: Option<String>)
    ensures
        option_view(uri) == file_url(path@),
        uri is Some <==> path@.len() > 0 && path@[0] == '/',
        plain_path(path@) ==> option_view(uri) == Some("file://"@ + path@),
{
    url_from_file_path(path)
}

/// The URI of the file at `file`, seen from the folder at `root`.
pub fn document_uri(root: &str, file: &str) -> (uri: Option<String>)
    ensures
        option_view(uri) == file_url(joined(root@, file@)),
        uri is Some <==> joined(root@, file@).len() > 0 && joined(root@, file@)[0] == '/',
        plain_path(joined(root@, file@)) ==> option_view(uri) == Some(
            "file://"@ + joined(root@, file@),
        ),
{
    let path = join(root, file);
    file_uri(path.as_str())
}

} // verus!
