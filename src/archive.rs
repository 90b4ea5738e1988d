//! The local archive: a directory of images plus an append-only log of the
//! emoji written there, and the derivation of each image's file name.
use vstd::prelude::*;
use crate::emoji::Emoji;
use crate::error::SyncError;

verus! {

/// The name of the metadata log inside an archive directory.
pub const EMOJI_METADATA_FILENAME: &'static str = "metadata.ndjson";

/// Index of the last `/` in `s`, or -1 when there is none.
pub open spec fn last_slash(s: Seq<char>) -> int
    decreases s.len(),
{
    if s.len() == 0 {
        -1
    } else if s.last() == '/' {
        s.len() - 1
    } else {
        last_slash(s.drop_last())
    }
}

proof fn lemma_last_slash_bounds(s: Seq<char>)
    ensures
        -1 <= last_slash(s) < s.len(),
        last_slash(s) >= 0 ==> s[last_slash(s)] == '/',
    decreases s.len(),
{
    if s.len() > 0 && s.last() != '/' {
        lemma_last_slash_bounds(s.drop_last());
    }
}

/// The file name of an image: the last two `/`-separated segments of its URL
/// joined by a hyphen (`.../T03/zuck/abc.png` gives `zuck-abc.png`).
pub open spec fn filename_from_url(url: Seq<char>) -> Seq<char> {
    let i = last_slash(url);
    let dir = url.take(i);
    let j = last_slash(dir);
    dir.subrange(j + 1, i) + seq!['-'] + url.subrange(i + 1, url.len() as int)
}

/// A directory path with a file name appended; an absolute name (one that
/// starts with `/`) stands for itself.
pub open spec fn join_path(dir: Seq<char>, name: Seq<char>) -> Seq<char> {
    if name.len() > 0 && name[0] == '/' {
        name
    } else if dir.len() == 0 {
        name
    } else if dir.last() == '/' {
        dir + name
    } else {
        dir + seq!['/'] + name
    }
}

/// The position of the last `/` among the first `end` characters of `s`.
fn find_last_slash(s: &str, end: usize) -> (r: Option<usize>)
    requires
        end <= s@.len(),
    ensures
        match r {
            Some(i) => i as int == last_slash(s@.take(end as int)) && i < end,
            None => last_slash(s@.take(end as int)) == -1,
        },
{
    let mut i: usize = end;
    while i > 0
        invariant
            i <= end <= s@.len(),
            last_slash(s@.take(end as int)) == last_slash(s@.take(i as int)),
        decreases i,
    {
        let j = i - 1;
        assert(s@.take(i as int).drop_last() =~= s@.take(j as int));
        if s.get_char(j) == '/' {
            return Some(j);
        }
        i = j;
    }
    None
}

/// An emoji together with the name of its image file in the archive.
pub struct EmojiFile {
    pub emoji: Emoji,
    pub filename: String,
}

impl EmojiFile {
    /// Derives the image file name from a URL that holds at least one `/`.
    pub fn generate_filename_from_url(url: &str) -> (r: String)
        requires
            last_slash(url@) >= 0,
        ensures
            r@ == filename_from_url(url@),
    {
        let n = url.unicode_len();
        assert(url@.take(n as int) =~= url@);
        let i = match find_last_slash(url, n) {
            Some(i) => i,
            None => 0,
        };
        let start = match find_last_slash(url, i) {
            Some(j) => j + 1,
            None => 0,
        };
        proof {
            lemma_last_slash_bounds(url@.take(i as int));
        }
        let dir_part = url.substring_char(start, i);
        let file_part = url.substring_char(i + 1, n);
        let r = String::from_str(dir_part).concat("-").concat(file_part);
        proof {
            reveal_strlit("-");
            assert(url@.take(i as int).subrange(start as int, i as int) =~= dir_part@);
        }
        r
    }

    /// Pairs `emoji` with its file name; a URL without any `/` gives no file
    /// name and is refused.
    pub fn from_emoji(emoji: Emoji) -> (r: Result<EmojiFile, SyncError>)
        ensures
            last_slash(emoji.url@) >= 0 <==> r is Ok,
            r matches Ok(f) ==> f.emoji == emoji && f.filename@ == filename_from_url(emoji.url@),
            r matches Err(e) ==> (e matches SyncError::Decode(u) && u@ == emoji.url@),
    {
        let n = emoji.url.unicode_len();
        assert(emoji.url@.take(n as int) =~= emoji.url@);
        match find_last_slash(emoji.url.as_str(), n) {
            None => Err(SyncError::Decode(emoji.url)),
            Some(_) => {
                let filename = EmojiFile::generate_filename_from_url(emoji.url.as_str());
                Ok(EmojiFile { emoji, filename })
            },
        }
    }
}

/// An archive directory, named by its path.
pub struct EmojiDirectory {
    path: String,
}

impl EmojiDirectory {
    pub closed spec fn path(&self) -> Seq<char> {
        self.path@
    }

    pub fn new(path: &str) -> (r: Self)
        ensures
            r.path() == path@,
    {
        EmojiDirectory { path: path.to_owned() }
    }

    /// The path of the file `name` inside the directory.
    pub fn get_inner_filepath(&self, name: &str) -> (r: String)
        ensures
            r@ == join_path(self.path(), name@),
    {
        let d = self.path.as_str();
        let n = d.unicode_len();
        if name.unicode_len() > 0 && name.get_char(0) == '/' {
            name.to_owned()
        } else if n == 0 {
            name.to_owned()
        } else if d.get_char(n - 1) == '/' {
            String::from_str(d).concat(name)
        } else {
            let r = String::from_str(d).concat("/").concat(name);
            proof {
                reveal_strlit("/");
            }
            r
        }
    }

    /// The path of the metadata log.
    pub fn get_metadata_filepath(&self) -> (r: String)
        ensures
            r@ == join_path(self.path(), EMOJI_METADATA_FILENAME@),
    {
        self.get_inner_filepath(EMOJI_METADATA_FILENAME)
    }

    /// The path of the image of `emoji_file`.
    pub fn get_emoji_filepath(&self, emoji_file: &EmojiFile) -> (r: String)
        ensures
            r@ == join_path(self.path(), emoji_file.filename@),
    {
        self.get_inner_filepath(emoji_file.filename.as_str())
    }
}

/// The names recorded in the metadata log, in log order; a name is known
/// exactly when some log entry carries it.
pub struct KnownNames {
    names: Vec<String>,
}

impl View for KnownNames {
    type V = Seq<Seq<char>>;

    closed spec fn view(&self) -> Seq<Seq<char>> {
        self.names@.map_values(|s: String| s@)
    }
}

impl KnownNames {
    pub fn new() -> (r: Self)
        ensures
            r@ == Seq::<Seq<char>>::empty(),
    {
        KnownNames { names: Vec::new() }
    }

    /// The names of the log entries `entries`, replayed in order.
    pub fn from_log(entries: &Vec<EmojiFile>) -> (r: Self)
        ensures
            r@ == entries@.map_values(|f: EmojiFile| f.emoji.name@),
    {
        let mut r = KnownNames::new();
        let mut i: usize = 0;
        while i < entries.len()
            invariant
                i <= entries@.len(),
                r@ == entries@.take(i as int).map_values(|f: EmojiFile| f.emoji.name@),
            decreases entries@.len() - i,
        {
            r.insert(entries[i].emoji.name.clone());
            assert(entries@.take(i + 1) =~= entries@.take(i as int).push(entries@[i as int]));
            assert(r@ =~= entries@.take(i + 1).map_values(|f: EmojiFile| f.emoji.name@));
            i = i + 1;
        }
        assert(entries@.take(i as int) =~= entries@);
        r
    }

    /// Records a name read back from the log.
    pub fn insert(&mut self, name: String)
        ensures
            final(self)@ == old(self)@.push(name@),
    {
        self.names.push(name);
        assert(self.names@.map_values(|s: String| s@) =~= old(self)@.push(name@));
    }

    pub fn contains(&self, name: &str) -> (r: bool)
        ensures
            r == self@.contains(name@),
    {
        names_contain(&self.names, name)
    }
}

/// Whether one of `names` equals `name`.
pub(crate) fn names_contain(names: &Vec<String>, name: &str) -> (r: bool)
    ensures
        r == names@.map_values(|s: String| s@).contains(name@),
{
    let ghost view = names@.map_values(|s: String| s@);
    let key = name.to_owned();
    let mut i: usize = 0;
    while i < names.len()
        invariant
            i <= names@.len(),
            key@ == name@,
            view == names@.map_values(|s: String| s@),
            forall|j: int| 0 <= j < i ==> names@[j]@ != name@,
        decreases names@.len() - i,
    {
        if names[i] == key {
            assert(view[i as int] == name@);
            return true;
        }
        i = i + 1;
    }
    assert(!view.contains(name@)) by {
        if view.contains(name@) {
            let k = choose|k: int| 0 <= k < view.len() && view[k] == name@;
            assert(names@[k]@ == name@);
        }
    }
    false
}

} // verus!
