use vstd::prelude::*;
use vstd::string::{StrSliceExecFns, StringExecFns};

use crate::asset::Asset;
use crate::asset_ref::AssetRef;
use crate::asset_type::AssetType;
use crate::rel_path::{path_with_extension, spec_path_with_extension};
use crate::text::push_char;

verus! {

/// What `str::to_lowercase` yields for a string.
pub uninterp spec fn str_lowercase(s: Seq<char>) -> Seq<char>;

/// Whether `c` has the Unicode `White_Space` property, the test that
/// `char::is_whitespace` and `str::split_whitespace` use: tab, line feed,
/// vertical tab, form feed, carriage return, space, next line, no-break space,
/// ogham space mark, the spaces U+2000 to U+200A, line separator, paragraph
/// separator, narrow no-break space, medium mathematical space and
/// ideographic space.
pub open spec fn spec_is_whitespace(c: char) -> bool {
    let u = c as u32;
    ||| 0x09 <= u <= 0x0d
    ||| u == 0x20
    ||| u == 0x85
    ||| u == 0xa0
    ||| u == 0x1680
    ||| 0x2000 <= u <= 0x200a
    ||| u == 0x2028
    ||| u == 0x2029
    ||| u == 0x202f
    ||| u == 0x205f
    ||| u == 0x3000
}

/// Calls `str::to_lowercase`.
///
/// The contract claims that the result is a function of the string, named
/// `str_lowercase`; the Unicode case mapping itself is not stated.
#[verifier::external_body]
pub(crate) fn lowercase(s: &str) -> (res: String)
    ensures
        res@ == str_lowercase(s@),
{
    s.to_lowercase()
}

/// Whether `c` is a whitespace character.
pub fn is_whitespace(c: char) -> (res: bool)
    ensures
        res == spec_is_whitespace(c),
{
    let u = c as u32;
    (0x09 <= u && u <= 0x0d) || u == 0x20 || u == 0x85 || u == 0xa0 || u == 0x1680
        || (0x2000 <= u && u <= 0x200a) || u == 0x2028 || u == 0x2029 || u == 0x202f
        || u == 0x205f || u == 0x3000
}

/// The words of `s`: its maximal runs of non-whitespace characters, in order.
pub open spec fn spec_words(s: Seq<char>) -> Seq<Seq<char>>
    decreases s.len(),
{
    if s.len() == 0 {
        seq![]
    } else {
        let w = spec_words(s.drop_last());
        let c = s.last();
        if spec_is_whitespace(c) {
            w
        } else if s.len() >= 2 && !spec_is_whitespace(s[s.len() - 2]) {
            w.drop_last().push(w.last().push(c))
        } else {
            w.push(seq![c])
        }
    }
}

/// The words joined with `sep` between each two.
pub open spec fn spec_join(ws: Seq<Seq<char>>, sep: char) -> Seq<char>
    decreases ws.len(),
{
    if ws.len() == 0 {
        seq![]
    } else if ws.len() == 1 {
        ws[0]
    } else {
        spec_join(ws.drop_last(), sep).push(sep) + ws.last()
    }
}

/// The project name for a directory: its name in lower case, with each run of
/// whitespace turned into one `-` and none at either end.
pub open spec fn spec_project_name(dir_name: Seq<char>) -> Seq<char> {
    spec_join(spec_words(str_lowercase(dir_name)), '-')
}

/// The folder name, inside Studio's content folder, that a project syncs to.
pub open spec fn spec_identifier(dir_name: Seq<char>) -> Seq<char> {
    ".asphalt-"@ + spec_project_name(dir_name)
}

proof fn lemma_join_extend_last(ws: Seq<Seq<char>>, sep: char, c: char)
    requires
        ws.len() > 0,
    ensures
        spec_join(ws.drop_last().push(ws.last().push(c)), sep) == spec_join(ws, sep).push(c),
{
    let ws2 = ws.drop_last().push(ws.last().push(c));
    if ws.len() == 1 {
        assert(ws2.len() == 1);
    } else {
        assert(ws2.drop_last() =~= ws.drop_last());
        assert(spec_join(ws2, sep) =~= spec_join(ws, sep).push(c));
    }
}

proof fn lemma_join_new_word(ws: Seq<Seq<char>>, sep: char, c: char)
    ensures
        spec_join(ws.push(seq![c]), sep) == if ws.len() == 0 {
            seq![c]
        } else {
            spec_join(ws, sep).push(sep).push(c)
        },
{
    let ws2 = ws.push(seq![c]);
    assert(ws2.drop_last() =~= ws);
    if ws.len() > 0 {
        assert(spec_join(ws, sep).push(sep) + seq![c] =~= spec_join(ws, sep).push(sep).push(c));
    }
}

/// Joins the whitespace-separated words of `s` with `sep`.
pub fn join_words(s: &str, sep: char) -> (res: String)
    ensures
        res@ == spec_join(spec_words(s@), sep),
{
    let n = s.unicode_len();
    let mut out = String::new();
    let mut has_word = false;
    let mut prev_in_word = false;
    let mut i: usize = 0;
    while i < n
        invariant
            n == s@.len(),
            i <= n,
            out@ == spec_join(spec_words(s@.take(i as int)), sep),
            has_word == (spec_words(s@.take(i as int)).len() > 0),
            prev_in_word == (i > 0 && !spec_is_whitespace(s@[i - 1])),
            prev_in_word ==> has_word,
        decreases n - i,
    {
        let c = s.get_char(i);
        let ghost t = s@.take(i as int);
        let ghost t2 = s@.take(i + 1);
        assert(t2.drop_last() =~= t);
        assert(t2.last() == c);
        if is_whitespace(c) {
            prev_in_word = false;
        } else if prev_in_word {
            proof {
                assert(t2[t2.len() - 2] == s@[i - 1]);
                lemma_join_extend_last(spec_words(t), sep, c);
            }
            push_char(&mut out, c);
        } else {
            proof {
                if i > 0 {
                    assert(t2[t2.len() - 2] == s@[i - 1]);
                }
                lemma_join_new_word(spec_words(t), sep, c);
            }
            if has_word {
                push_char(&mut out, sep);
            }
            push_char(&mut out, c);
            has_word = true;
            prev_in_word = true;
        }
        i = i + 1;
    }
    assert(s@.take(n as int) =~= s@);
    out
}

/// The name of the folder a project in the directory `dir_name` syncs to:
/// `.asphalt-` followed by the project name.
pub fn identifier_for_directory(dir_name: &str) -> (res: String)
    ensures
        res@ == spec_identifier(dir_name@),
{
    let lower = lowercase(dir_name);
    let project_name = join_words(lower.as_str(), '-');
    let mut identifier = ".asphalt-".to_owned();
    identifier.append(project_name.as_str());
    identifier
}

/// The Studio sync backend: assets are written into a folder of Studio's
/// content directory, except models and animations, which Studio can only
/// load from the cloud.
pub struct Studio {
    /// The folder, inside the content directory, that assets are written to.
    pub identifier: String,
    /// Whether an API key was given, so that missing models can be uploaded.
    pub can_upload: bool,
}

/// What syncing one asset to Studio takes.
pub enum SyncStep {
    /// Nothing is to be uploaded or written; the reference, if any, is final.
    Resolved(Option<AssetRef>),
    /// The asset is to be uploaded; `Studio::finish_upload` gives the outcome.
    Upload,
    /// The asset's data is to be written to `target`, relative to the sync
    /// folder; `asset_ref` then refers to it.
    WriteFile { target: String, asset_ref: AssetRef },
}

/// Whether Studio has to load an asset of this type from the cloud.
pub open spec fn spec_cloud_only(ty: AssetType) -> bool {
    ty is Model || ty is Animation
}

/// What syncing an asset of type `ty`, with hash `hash` and extension `ext`,
/// takes, given the cloud id a lockfile already records for it.
pub open spec fn sync_step_is(step: SyncStep, studio: Studio, ty: AssetType, lockfile_asset_id: Option<u64>, hash: Seq<char>, ext: Seq<char>) -> bool {
    if spec_cloud_only(ty) {
        match lockfile_asset_id {
            Some(id) => step matches SyncStep::Resolved(Some(AssetRef::Cloud(c))) && c == id,
            None => if studio.can_upload {
                step is Upload
            } else {
                step matches SyncStep::Resolved(None)
            },
        }
    } else {
        step matches SyncStep::WriteFile { target, asset_ref: AssetRef::Studio(name) }
            && target@ == spec_path_with_extension(hash, ext)
            && name@ == studio.identifier@ + "/"@ + target@
    }
}

/// Why syncing an asset to Studio failed.
#[derive(Debug, Clone, Copy, PartialEq, Eq, Structural)]
pub enum SyncError {
    /// Uploading a model or animation failed.
    UploadFailed,
}

impl Studio {
    /// The backend for a project in the directory named `dir_name`.
    pub fn for_directory(dir_name: &str, can_upload: bool) -> (res: Studio)
        ensures
            res.identifier@ == spec_identifier(dir_name@),
            res.can_upload == can_upload,
    {
        Studio { identifier: identifier_for_directory(dir_name), can_upload }
    }

    /// The outcome of syncing an asset that had to be uploaded, given what
    /// the upload came to: its cloud id, or a failure.
    pub fn finish_upload(uploaded: Result<u64, ()>) -> (res: Result<Option<AssetRef>, SyncError>)
        ensures
            match uploaded {
                Ok(id) => res matches Ok(Some(AssetRef::Cloud(c))) && c == id,
                Err(_) => res == Err::<Option<AssetRef>, SyncError>(SyncError::UploadFailed),
            },
    {
        match uploaded {
            Ok(id) => Ok(Some(AssetRef::Cloud(id))),
            Err(_) => Err(SyncError::UploadFailed),
        }
    }

    /// Decides how an asset is synced, given the cloud id a lockfile records
    /// for it, if any.
    pub fn sync(&self, asset: &Asset, lockfile_asset_id: Option<u64>) -> (res: SyncStep)
        ensures
            sync_step_is(res, *self, asset.ty, lockfile_asset_id, asset.hash@, asset.ext@),
    {
        match asset.ty {
            AssetType::Model(_) | AssetType::Animation => {
                return match lockfile_asset_id {
                    Some(id) => SyncStep::Resolved(Some(AssetRef::Cloud(id))),
                    None => if self.can_upload {
                        SyncStep::Upload
                    } else {
                        SyncStep::Resolved(None)
                    },
                };
            },
            _ => {},
        }
        let target = path_with_extension(asset.hash.as_str(), asset.ext.as_str());
        let mut name = self.identifier.clone();
        push_char(&mut name, '/');
        name.append(target.as_str());
        proof {
            assert(name@ =~= self.identifier@ + "/"@ + target@) by {
                reveal_strlit("/");
            }
        }
        SyncStep::WriteFile { target, asset_ref: AssetRef::Studio(name) }
    }
}

/// Studio loads images, audio and video from its content folder: each such
/// asset is written there as `<hash>.<ext>` and referred to by that path
/// under the project's folder, whatever the lockfile records and whether or
/// not uploads are possible. Models and animations are never written.
pub proof fn loadable_assets_are_written(step: SyncStep, studio: Studio, ty: AssetType, lockfile_asset_id: Option<u64>, hash: Seq<char>, ext: Seq<char>)
    requires
        sync_step_is(step, studio, ty, lockfile_asset_id, hash, ext),
    ensures
        ty is Image || ty is Audio || ty is Video ==> (step matches SyncStep::WriteFile { target, asset_ref: AssetRef::Studio(name) }
            && target@ == spec_path_with_extension(hash, ext)
            && name@ == studio.identifier@ + "/"@ + target@),
        ty is Model || ty is Animation ==> !(step is WriteFile),
{
}

proof fn lemma_words_clean(s: Seq<char>)
    ensures
        forall|i: int, j: int|
            0 <= i < spec_words(s).len() && 0 <= j < spec_words(s)[i].len() ==> !spec_is_whitespace(#[trigger] spec_words(s)[i][j]),
        s.len() > 0 && !spec_is_whitespace(s.last()) ==> spec_words(s).len() > 0,
    decreases s.len(),
{
    if s.len() > 0 {
        let t = s.drop_last();
        lemma_words_clean(t);
        let w = spec_words(t);
        let c = s.last();
        if !spec_is_whitespace(c) {
            if s.len() >= 2 && !spec_is_whitespace(s[s.len() - 2]) {
                assert(t.last() == s[s.len() - 2]);
                let w2 = w.drop_last().push(w.last().push(c));
                assert forall|i: int, j: int| 0 <= i < w2.len() && 0 <= j < w2[i].len() implies !spec_is_whitespace(#[trigger] w2[i][j]) by {
                    if i < w.len() - 1 {
                        assert(w2[i] == w[i]);
                    } else if j < w.last().len() {
                        assert(w2[i][j] == w[w.len() - 1][j]);
                    }
                }
            } else {
                let w2 = w.push(seq![c]);
                assert forall|i: int, j: int| 0 <= i < w2.len() && 0 <= j < w2[i].len() implies !spec_is_whitespace(#[trigger] w2[i][j]) by {
                    if i < w.len() {
                        assert(w2[i] == w[i]);
                    }
                }
            }
        }
    }
}

proof fn lemma_join_clean(ws: Seq<Seq<char>>, sep: char)
    requires
        forall|i: int, j: int| 0 <= i < ws.len() && 0 <= j < ws[i].len() ==> !spec_is_whitespace(#[trigger] ws[i][j]),
    ensures
        forall|k: int| 0 <= k < spec_join(ws, sep).len() ==> #[trigger] spec_join(ws, sep)[k] == sep || !spec_is_whitespace(spec_join(ws, sep)[k]),
    decreases ws.len(),
{
    if ws.len() == 1 {
        assert forall|k: int| 0 <= k < spec_join(ws, sep).len() implies #[trigger] spec_join(ws, sep)[k] == sep || !spec_is_whitespace(spec_join(ws, sep)[k]) by {
            assert(ws[0][k] == spec_join(ws, sep)[k]);
        }
    } else if ws.len() > 1 {
        let prefix = ws.drop_last();
        lemma_join_clean(prefix, sep);
        let head = spec_join(prefix, sep).push(sep);
        let j = spec_join(ws, sep);
        assert forall|k: int| 0 <= k < j.len() implies #[trigger] j[k] == sep || !spec_is_whitespace(j[k]) by {
            if k < head.len() - 1 {
                assert(j[k] == spec_join(prefix, sep)[k]);
            } else if k >= head.len() {
                assert(j[k] == ws[ws.len() - 1][k - head.len()]);
            }
        }
    }
}

/// A project name holds no whitespace: each of its characters is `-` or a
/// character that is not whitespace.
pub proof fn project_name_has_no_whitespace(dir_name: Seq<char>)
    ensures
        forall|k: int|
            0 <= k < spec_project_name(dir_name).len() ==> #[trigger] spec_project_name(dir_name)[k] == '-'
                || !spec_is_whitespace(spec_project_name(dir_name)[k]),
{
    let s = str_lowercase(dir_name);
    lemma_words_clean(s);
    lemma_join_clean(spec_words(s), '-');
}

} // verus!
