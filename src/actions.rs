//! The decisions of the two synchronisation directions. Downloading skips
//! every emoji whose name the archive log already holds; uploading skips
//! reserved names and names that exist remotely, uploads images in a first
//! pass and creates aliases only after it.
use vstd::prelude::*;
use crate::archive::{EmojiFile, KnownNames, filename_from_url, last_slash, names_contain};
use crate::emoji::{Emoji, EmojiCollection, EmojiExistenceKind, existence_of};
use crate::error::SyncError;

verus! {

/// The names reserved by the platform's built-in emoji vocabulary; none of
/// them can be created as a custom emoji.
pub struct StandardShortcodes {
    names: Vec<String>,
}

impl View for StandardShortcodes {
    type V = Seq<Seq<char>>;

    closed spec fn view(&self) -> Seq<Seq<char>> {
        self.names@.map_values(|s: String| s@)
    }
}

impl StandardShortcodes {
    pub fn new(names: Vec<String>) -> (r: Self)
        ensures
            r@ == names@.map_values(|s: String| s@),
    {
        StandardShortcodes { names }
    }

    pub fn contains(&self, name: &str) -> (r: bool)
        ensures
            r == self@.contains(name@),
    {
        names_contain(&self.names, name)
    }
}

/// What the download direction does with one remote record.
pub enum DownloadDecision {
    /// The archive log already names it.
    Skip(EmojiFile),
    /// Fetch its image to the file, then append it to the log.
    Fetch(EmojiFile),
}

/// Decides one remote record against the names the archive log holds. A
/// record whose URL has no `/` has no file name and is refused.
pub fn plan_download(known: &KnownNames, emoji: Emoji) -> (r: Result<DownloadDecision, SyncError>)
    ensures
        r is Ok <==> last_slash(emoji.url@) >= 0,
        r matches Err(e) ==> (e matches SyncError::Decode(u) && u@ == emoji.url@),
        r matches Ok(DownloadDecision::Skip(f)) ==> known@.contains(emoji.name@) && f.emoji == emoji
            && f.filename@ == filename_from_url(emoji.url@),
        r matches Ok(DownloadDecision::Fetch(f)) ==> !known@.contains(emoji.name@) && f.emoji == emoji
            && f.filename@ == filename_from_url(emoji.url@),
{
    match EmojiFile::from_emoji(emoji) {
        Err(e) => Err(e),
        Ok(f) => {
            if known.contains(f.emoji.name.as_str()) {
                Ok(DownloadDecision::Skip(f))
            } else {
                Ok(DownloadDecision::Fetch(f))
            }
        },
    }
}

/// The remote records that a download run fetches and logs, in order.
pub open spec fn downloaded(known: Seq<Seq<char>>, remote: Seq<Emoji>) -> Seq<Emoji> {
    remote.filter(|e: Emoji| !known.contains(e.name@))
}

/// The names a log holds after a run appended `fetched` to it.
pub open spec fn names_after(known: Seq<Seq<char>>, fetched: Seq<Emoji>) -> Seq<Seq<char>> {
    known + fetched.map_values(|e: Emoji| e.name@)
}

proof fn lemma_filter_none<A>(s: Seq<A>, pred: spec_fn(A) -> bool)
    requires
        forall|i: int| 0 <= i < s.len() ==> !pred(#[trigger] s[i]),
    ensures
        s.filter(pred).len() == 0,
    decreases s.len(),
{
    reveal(Seq::filter);
    if s.len() > 0 {
        lemma_filter_none(s.drop_last(), pred);
    }
}

/// Downloading is idempotent: after a run that completed, a second run
/// against the same remote list finds every name in the log and fetches
/// nothing, so neither bytes nor log entries are repeated.
pub proof fn lemma_download_idempotent(known: Seq<Seq<char>>, remote: Seq<Emoji>)
    ensures
        downloaded(names_after(known, downloaded(known, remote)), remote).len() == 0,
{
    broadcast use vstd::seq_lib::group_filter_ensures;

    let first = downloaded(known, remote);
    let known2 = names_after(known, first);
    let pred1 = |e: Emoji| !known.contains(e.name@);
    let pred2 = |e: Emoji| !known2.contains(e.name@);
    assert forall|i: int| 0 <= i < remote.len() implies !pred2(#[trigger] remote[i]) by {
        let e = remote[i];
        if known.contains(e.name@) {
            let k = choose|k: int| 0 <= k < known.len() && known[k] == e.name@;
            assert(known2[k] == e.name@);
        } else {
            assert(pred1(remote[i]));
            assert(remote.filter(pred1).contains(remote[i]));
            let m = choose|m: int| 0 <= m < first.len() && first[m] == e;
            assert(known2[known.len() + m] == e.name@);
        }
        assert(known2.contains(e.name@));
    }
    lemma_filter_none(remote, pred2);
}

/// The names that replaying `log` gives.
pub open spec fn log_names(log: Seq<EmojiFile>) -> Seq<Seq<char>> {
    log.map_values(|f: EmojiFile| f.emoji.name@)
}

/// Idempotence over the log itself: when a run appended to `log` exactly the
/// records it fetched, the names replayed from the longer log leave nothing
/// to fetch from the same remote list.
pub proof fn lemma_download_idempotent_over_log(log: Seq<EmojiFile>, remote: Seq<Emoji>, appended: Seq<EmojiFile>)
    requires
        appended.map_values(|f: EmojiFile| f.emoji) == downloaded(log_names(log), remote),
    ensures
        downloaded(log_names(log + appended), remote).len() == 0,
{
    let fetched = downloaded(log_names(log), remote);
    assert(log_names(log + appended) =~= names_after(log_names(log), fetched)) by {
        assert(fetched.len() == appended.len());
        assert forall|i: int| 0 <= i < appended.len() implies #[trigger] fetched[i] == appended[i].emoji by {
            assert(appended.map_values(|f: EmojiFile| f.emoji)[i] == appended[i].emoji);
        }
    }
    lemma_download_idempotent(log_names(log), remote);
}

/// Why the upload direction leaves a local record alone.
pub enum SkipReason {
    /// The name is a standard shortcode.
    Reserved,
    /// The name exists remotely as an emoji of its own.
    Exists,
    /// The name exists remotely as an alias of the given emoji.
    ExistsAsAliasFor(String),
}

/// What the upload direction does with one archived record.
pub enum UploadDecision {
    Skip(SkipReason),
    /// Create it as an alias once every image has been uploaded.
    Defer,
    /// Upload its image now.
    Upload,
}

/// The decision for `f` against the remote index and the reserved names.
pub open spec fn upload_decision(f: EmojiFile, remote: Seq<Emoji>, reserved: Seq<Seq<char>>) -> UploadDecision {
    if reserved.contains(f.emoji.name@) {
        UploadDecision::Skip(SkipReason::Reserved)
    } else {
        match existence_of(remote, f.emoji.name@) {
            EmojiExistenceKind::Exists => UploadDecision::Skip(SkipReason::Exists),
            EmojiExistenceKind::ExistsAsAliasFor(t) => UploadDecision::Skip(SkipReason::ExistsAsAliasFor(t)),
            EmojiExistenceKind::DoesNotExist => if f.emoji.alias_for@.len() == 0 {
                UploadDecision::Upload
            } else {
                UploadDecision::Defer
            },
        }
    }
}

/// Decides one archived record.
pub fn decide_upload(emoji_file: &EmojiFile, remote: &EmojiCollection, reserved: &StandardShortcodes) -> (r: UploadDecision)
    ensures
        r == upload_decision(*emoji_file, remote@, reserved@),
{
    if reserved.contains(emoji_file.emoji.name.as_str()) {
        return UploadDecision::Skip(SkipReason::Reserved);
    }
    match remote.get_existence_status(emoji_file.emoji.name.as_str()) {
        EmojiExistenceKind::Exists => UploadDecision::Skip(SkipReason::Exists),
        EmojiExistenceKind::ExistsAsAliasFor(t) => UploadDecision::Skip(SkipReason::ExistsAsAliasFor(t)),
        EmojiExistenceKind::DoesNotExist => {
            if emoji_file.emoji.alias_for.as_str().is_empty() {
                UploadDecision::Upload
            } else {
                UploadDecision::Defer
            }
        },
    }
}

/// One write to the remote that an upload run performs.
pub ghost enum RemoteWrite {
    /// Upload the image of the named emoji.
    Upload(Seq<char>),
    /// Create the first name as an alias of the second.
    CreateAlias(Seq<char>, Seq<char>),
}

pub open spec fn write_name(w: RemoteWrite) -> Seq<char> {
    match w {
        RemoteWrite::Upload(n) => n,
        RemoteWrite::CreateAlias(n, _) => n,
    }
}

/// The records uploaded during the pass over the archive, in log order.
pub open spec fn uploaded(local: Seq<EmojiFile>, remote: Seq<Emoji>, reserved: Seq<Seq<char>>) -> Seq<EmojiFile> {
    local.filter(|f: EmojiFile| upload_decision(f, remote, reserved) is Upload)
}

/// The records whose aliases are created after the pass, in log order.
pub open spec fn deferred(local: Seq<EmojiFile>, remote: Seq<Emoji>, reserved: Seq<Seq<char>>) -> Seq<EmojiFile> {
    local.filter(|f: EmojiFile| upload_decision(f, remote, reserved) is Defer)
}

/// Every remote write of an upload run, in the order performed: the image
/// uploads of the pass, then the deferred aliases.
pub open spec fn upload_writes(local: Seq<EmojiFile>, remote: Seq<Emoji>, reserved: Seq<Seq<char>>) -> Seq<RemoteWrite> {
    uploaded(local, remote, reserved).map_values(|f: EmojiFile| RemoteWrite::Upload(f.emoji.name@))
        + deferred(local, remote, reserved).map_values(
        |f: EmojiFile| RemoteWrite::CreateAlias(f.emoji.name@, f.emoji.alias_for@),
    )
}

/// Aliases come last: in an upload run every image upload precedes every
/// alias creation, whatever the order of the records in the log.
pub proof fn lemma_aliases_after_uploads(local: Seq<EmojiFile>, remote: Seq<Emoji>, reserved: Seq<Seq<char>>)
    ensures
        forall|i: int, j: int|
            0 <= i < upload_writes(local, remote, reserved).len() && 0 <= j < upload_writes(local, remote, reserved).len()
                && #[trigger] upload_writes(local, remote, reserved)[i] is CreateAlias
                && #[trigger] upload_writes(local, remote, reserved)[j] is Upload ==> j < i,
{
    let n = uploaded(local, remote, reserved).len();
    let w = upload_writes(local, remote, reserved);
    assert forall|i: int, j: int|
        0 <= i < w.len() && 0 <= j < w.len() && #[trigger] w[i] is CreateAlias && #[trigger] w[j] is Upload implies j < i by {
        if i < n {
            assert(w[i] is Upload);
        }
        if j >= n {
            assert(w[j] is CreateAlias);
        }
    }
}

/// Nothing is written to the remote under a reserved name, nor under a name
/// that the remote index already holds, as an emoji or as an alias.
pub proof fn lemma_writes_only_new_names(local: Seq<EmojiFile>, remote: Seq<Emoji>, reserved: Seq<Seq<char>>)
    ensures
        forall|i: int|
            0 <= i < upload_writes(local, remote, reserved).len() ==> {
                let name = write_name(#[trigger] upload_writes(local, remote, reserved)[i]);
                &&& !reserved.contains(name)
                &&& existence_of(remote, name) is DoesNotExist
            },
{
    let ups = uploaded(local, remote, reserved);
    let defs = deferred(local, remote, reserved);
    let w = upload_writes(local, remote, reserved);
    broadcast use vstd::seq_lib::group_filter_ensures;

    assert forall|i: int| 0 <= i < w.len() implies {
        let name = write_name(#[trigger] w[i]);
        &&& !reserved.contains(name)
        &&& existence_of(remote, name) is DoesNotExist
    } by {
        if i < ups.len() {
            assert(upload_decision(ups[i], remote, reserved) is Upload);
            assert(write_name(w[i]) == ups[i].emoji.name@);
        } else {
            let k = i - ups.len();
            assert(upload_decision(defs[k], remote, reserved) is Defer);
            assert(write_name(w[i]) == defs[k].emoji.name@);
        }
    }
}

proof fn lemma_filter_push(s: Seq<EmojiFile>, x: EmojiFile, pred: spec_fn(EmojiFile) -> bool)
    ensures
        s.push(x).filter(pred) == if pred(x) {
            s.filter(pred).push(x)
        } else {
            s.filter(pred)
        },
{
    reveal(Seq::filter);
    assert(s.push(x).drop_last() =~= s);
}

/// The upload pass over the archive: it decides each record as the log
/// yields it, against a remote index and a reserved set fixed for the run,
/// and keeps the alias records for after the pass.
pub struct UploadPass {
    remote: EmojiCollection,
    reserved: StandardShortcodes,
    aliases: Vec<EmojiFile>,
    seen: Ghost<Seq<EmojiFile>>,
}

/// What the caller does with one archived record.
pub enum UploadStep {
    Skip(EmojiFile, SkipReason),
    Upload(EmojiFile),
    /// The record was kept for alias creation after the pass.
    Deferred,
}

impl UploadPass {
    /// The records taken so far, in order.
    pub closed spec fn seen(&self) -> Seq<EmojiFile> {
        self.seen@
    }

    pub closed spec fn remote(&self) -> Seq<Emoji> {
        self.remote@
    }

    pub closed spec fn reserved(&self) -> Seq<Seq<char>> {
        self.reserved@
    }

    pub closed spec fn wf(&self) -> bool {
        self.aliases@ == deferred(self.seen@, self.remote@, self.reserved@)
    }

    pub fn new(remote: EmojiCollection, reserved: StandardShortcodes) -> (r: Self)
        ensures
            r.wf(),
            r.seen() == Seq::<EmojiFile>::empty(),
            r.remote() == remote@,
            r.reserved() == reserved@,
    {
        let r = UploadPass { remote, reserved, aliases: Vec::new(), seen: Ghost(Seq::empty()) };
        proof {
            reveal(Seq::filter);
        }
        r
    }

    /// Takes the next archived record.
    pub fn accept(&mut self, emoji_file: EmojiFile) -> (r: UploadStep)
        requires
            old(self).wf(),
        ensures
            final(self).wf(),
            final(self).seen() == old(self).seen().push(emoji_file),
            final(self).remote() == old(self).remote(),
            final(self).reserved() == old(self).reserved(),
            match upload_decision(emoji_file, old(self).remote(), old(self).reserved()) {
                UploadDecision::Skip(reason) => r == UploadStep::Skip(emoji_file, reason),
                UploadDecision::Upload => r == UploadStep::Upload(emoji_file),
                UploadDecision::Defer => r is Deferred,
            },
    {
        proof {
            lemma_filter_push(
                self.seen@,
                emoji_file,
                |f: EmojiFile| upload_decision(f, self.remote@, self.reserved@) is Defer,
            );
        }
        self.seen = Ghost(self.seen@.push(emoji_file));
        match decide_upload(&emoji_file, &self.remote, &self.reserved) {
            UploadDecision::Skip(reason) => UploadStep::Skip(emoji_file, reason),
            UploadDecision::Upload => UploadStep::Upload(emoji_file),
            UploadDecision::Defer => {
                self.aliases.push(emoji_file);
                UploadStep::Deferred
            },
        }
    }

    /// Ends the pass, handing out the kept alias records in log order: the
    /// deferred records of everything taken.
    pub fn into_aliases(self) -> (r: Vec<EmojiFile>)
        requires
            self.wf(),
        ensures
            r@ == deferred(self.seen(), self.remote(), self.reserved()),
    {
        self.aliases
    }
}

} // verus!
