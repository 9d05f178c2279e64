//! Track identity and the on-disk cache layout.
use vstd::prelude::*;

verus! {

/// A remote track: a stable opaque identity plus display metadata.
/// Two tracks are the same track when their identities are equal.
#[derive(Debug, Clone)]
pub struct TrackRef {
    pub video_id: String,
    pub title: String,
    pub author: String,
}

impl TrackRef {
    /// The identity that keys caches, queues and deduplication.
    pub open spec fn id(&self) -> Seq<char> {
        self.video_id@
    }

    pub fn new(video_id: String, title: String, author: String) -> (r: TrackRef)
        ensures
            r.video_id@ == video_id@,
            r.title@ == title@,
            r.author@ == author@,
    {
        TrackRef { video_id, title, author }
    }

    /// A field-by-field copy of this track.
    pub fn duplicate(&self) -> (r: TrackRef)
        ensures
            r == *self,
    {
        TrackRef { video_id: self.video_id.clone(), title: self.title.clone(), author: self.author.clone() }
    }

    /// Whether the two tracks share an identity.
    pub fn same_track(&self, other: &TrackRef) -> (r: bool)
        ensures
            r == (self.id() == other.id()),
    {
        self.video_id == other.video_id
    }
}

impl PartialEq for TrackRef {
    fn eq(&self, other: &TrackRef) -> (r: bool) {
        self.video_id == other.video_id
    }
}

impl vstd::std_specs::cmp::PartialEqSpecImpl for TrackRef {
    open spec fn obeys_eq_spec() -> bool {
        true
    }

    open spec fn eq_spec(&self, other: &TrackRef) -> bool {
        self.video_id@ == other.video_id@
    }
}

pub open spec fn media_ext() -> Seq<char> {
    seq!['.', 'm', 'p', '4']
}

pub open spec fn sidecar_ext() -> Seq<char> {
    seq!['.', 'j', 's', 'o', 'n']
}

/// File name of the media file cached for an identity.
pub open spec fn media_name(id: Seq<char>) -> Seq<char> {
    id + media_ext()
}

/// File name of the metadata sidecar that marks an identity's download as complete.
pub open spec fn sidecar_name(id: Seq<char>) -> Seq<char> {
    id + sidecar_ext()
}

/// The cache file name of the media for `id`.
pub fn media_file_name(id: &str) -> (r: String)
    ensures
        r@ == media_name(id@),
{
    let mut s = id.to_owned();
    s.append(".mp4");
    proof {
        reveal_strlit(".mp4");
    }
    assert(".mp4"@ =~= media_ext());
    s
}

/// The cache file name of the sidecar for `id`.
pub fn sidecar_file_name(id: &str) -> (r: String)
    ensures
        r@ == sidecar_name(id@),
{
    let mut s = id.to_owned();
    s.append(".json");
    proof {
        reveal_strlit(".json");
    }
    assert(".json"@ =~= sidecar_ext());
    s
}

/// A listed cache file that is a media file for which no sidecar is listed:
/// a download that never completed.
pub open spec fn is_partial_media(name: Seq<char>, dir: Seq<Seq<char>>) -> bool {
    &&& name.len() >= 4
    &&& name.subrange(name.len() - 4, name.len() as int) == media_ext()
    &&& !dir.contains(sidecar_name(name.subrange(0, name.len() - 4)))
}

pub open spec fn names_of(v: Seq<String>) -> Seq<Seq<char>> {
    v.map_values(|s: String| s@)
}

/// Whether `s` ends with the media extension.
fn ends_with_media_ext(s: &str) -> (r: bool)
    ensures
        r == (s@.len() >= 4 && s@.subrange(s@.len() - 4, s@.len() as int) == media_ext()),
{
    let n = s.unicode_len();
    if n < 4 {
        return false;
    }
    let r = s.get_char(n - 4) == '.' && s.get_char(n - 3) == 'm' && s.get_char(n - 2) == 'p'
        && s.get_char(n - 1) == '4';
    assert(r ==> s@.subrange(n - 4, n as int) =~= media_ext());
    assert(s@.subrange(n - 4, n as int) == media_ext() ==> {
        &&& s@.subrange(n - 4, n as int)[0] == s@[n - 4]
        &&& s@.subrange(n - 4, n as int)[1] == s@[n - 3]
        &&& s@.subrange(n - 4, n as int)[2] == s@[n - 2]
        &&& s@.subrange(n - 4, n as int)[3] == s@[n - 1]
    });
    r
}

/// Whether some entry of `names` equals `target`.
fn lists_name(names: &Vec<String>, target: &String) -> (r: bool)
    ensures
        r == names_of(names@).contains(target@),
{
    let mut i: usize = 0;
    while i < names.len()
        invariant
            i <= names.len(),
            forall|k: int| 0 <= k < i ==> names@[k]@ != target@,
        decreases names.len() - i,
    {
        if names[i] == *target {
            assert(names_of(names@)[i as int] == target@);
            return true;
        }
        i = i + 1;
    }
    assert forall|k: int| 0 <= k < names_of(names@).len() implies names_of(names@)[k] != target@ by {}
    false
}

/// The media files among a cache directory's file names that have no sidecar,
/// in listing order: what startup cleanup deletes.
pub fn partial_media_files(names: &Vec<String>) -> (r: Vec<String>)
    ensures
        names_of(r@) == names_of(names@).filter(|n: Seq<char>| is_partial_media(n, names_of(names@))),
{
    let ghost dir = names_of(names@);
    let ghost pred = |n: Seq<char>| is_partial_media(n, dir);
    let mut r: Vec<String> = Vec::new();
    let mut i: usize = 0;
    assert(names_of(r@) =~= dir.take(0).filter(pred)) by {
        reveal(Seq::filter);
    }
    while i < names.len()
        invariant
            i <= names.len(),
            dir == names_of(names@),
            pred == (|n: Seq<char>| is_partial_media(n, dir)),
            names_of(r@) == dir.take(i as int).filter(pred),
        decreases names.len() - i,
    {
        let name = &names[i];
        assert(dir[i as int] == name@);
        let mut partial = false;
        if ends_with_media_ext(name.as_str()) {
            let n = name.as_str().unicode_len();
            let stem = name.as_str().substring_char(0, n - 4);
            let side = sidecar_file_name(stem);
            partial = !lists_name(names, &side);
            assert(stem@ == name@.subrange(0, name@.len() - 4));
        }
        assert(pred(dir[i as int]) == is_partial_media(name@, dir));
        assert(partial == is_partial_media(name@, dir));
        assert(dir.take(i + 1).drop_last() =~= dir.take(i as int));
        let ghost old_r = r@;
        if partial {
            r.push(name.clone());
            assert(names_of(r@) =~= names_of(old_r).push(dir[i as int]));
        }
        assert(dir.take(i + 1).last() == dir[i as int]);
        assert(names_of(r@) == dir.take(i + 1).filter(pred)) by {
            reveal(Seq::filter);
        }
        i = i + 1;
    }
    assert(dir.take(names.len() as int) =~= dir);
    proof {
        reveal(Seq::filter);
    }
    r
}

} // verus!
