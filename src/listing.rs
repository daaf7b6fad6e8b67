//! Rendering tracks as a text listing, five lines per track.
use vstd::prelude::*;
use vstd::string::StringExecFns;
use crate::model::{Artist, Track};

verus! {

/// The artists' names joined with `", "`, in order.
pub open spec fn joined_names(artists: Seq<Artist>) -> Seq<char>
    decreases artists.len(),
{
    if artists.len() == 0 {
        Seq::empty()
    } else if artists.len() == 1 {
        artists[0].name@
    } else {
        joined_names(artists.drop_last()) + ", "@ + artists.last().name@
    }
}

/// Joins the names of `artists` with `", "`, keeping their order.
pub fn join_artist_names(artists: &Vec<Artist>) -> (r: String)
    ensures
        r@ == joined_names(artists@),
{
    let mut r = String::new();
    let mut i: usize = 0;
    while i < artists.len()
        invariant
            i <= artists@.len(),
            r@ == joined_names(artists@.take(i as int)),
        decreases artists.len() - i,
    {
        if i > 0 {
            r.append(", ");
        }
        r.append(artists[i].name.as_str());
        proof {
            let next = artists@.take(i + 1);
            assert(next.drop_last() =~= artists@.take(i as int));
        }
        i = i + 1;
    }
    assert(artists@.take(i as int) =~= artists@);
    r
}

/// The first line of a track's block: its title.
pub open spec fn title_line(t: Track) -> Seq<char> {
    "🎶 TITLE: "@ + t.name@ + " \n"@
}

/// The second line: the album's name.
pub open spec fn album_line(t: Track) -> Seq<char> {
    "💿 ALBUM: "@ + t.album.name@ + " \n"@
}

/// The third line: the album's artists, joined.
pub open spec fn artist_line(t: Track) -> Seq<char> {
    "🕺 ARTIST: "@ + joined_names(t.album.artists@) + " \n"@
}

/// The fourth line: the track's own link.
pub open spec fn link_line(t: Track) -> Seq<char> {
    "🌎 LINK: "@ + t.external_urls.spotify@ + " \n"@
}

/// The fifth line, which closes every block.
pub open spec fn separator_line() -> Seq<char> {
    "------------------------------------------------------------------------------------------------------- \n"@
}

/// The five lines that stand for one track.
pub open spec fn track_block(t: Track) -> Seq<char> {
    title_line(t) + album_line(t) + artist_line(t) + link_line(t) + separator_line()
}

/// The listing of `tracks`: their blocks back to back, in order.
pub open spec fn rendered(tracks: Seq<Track>) -> Seq<char>
    decreases tracks.len(),
{
    if tracks.len() == 0 {
        Seq::empty()
    } else {
        rendered(tracks.drop_last()) + track_block(tracks.last())
    }
}

/// Appends the block of `t` to `out`.
fn push_track_block(out: &mut String, t: &Track)
    ensures
        final(out)@ == old(out)@ + track_block(*t),
{
    out.append("🎶 TITLE: ");
    out.append(t.name.as_str());
    out.append(" \n");
    out.append("💿 ALBUM: ");
    out.append(t.album.name.as_str());
    out.append(" \n");
    let names = join_artist_names(&t.album.artists);
    out.append("🕺 ARTIST: ");
    out.append(names.as_str());
    out.append(" \n");
    out.append("🌎 LINK: ");
    out.append(t.external_urls.spotify.as_str());
    out.append(" \n");
    out.append("------------------------------------------------------------------------------------------------------- \n");
    assert(out@ =~= old(out)@ + track_block(*t));
}

/// Renders `tracks` as a listing: for each track, in order, its title,
/// album, artists, link and a separator, one line each.
pub fn tracks_into_string(tracks: Vec<Track>) -> (r: String)
    ensures
        r@ == rendered(tracks@),
{
    let mut r = String::new();
    let mut i: usize = 0;
    while i < tracks.len()
        invariant
            i <= tracks@.len(),
            r@ == rendered(tracks@.take(i as int)),
        decreases tracks.len() - i,
    {
        push_track_block(&mut r, &tracks[i]);
        proof {
            assert(tracks@.take(i + 1).drop_last() =~= tracks@.take(i as int));
        }
        i = i + 1;
    }
    assert(tracks@.take(i as int) =~= tracks@);
    r
}

/// How many line ends `s` holds.
pub open spec fn line_count(s: Seq<char>) -> nat
    decreases s.len(),
{
    if s.len() == 0 {
        0
    } else {
        line_count(s.drop_last()) + if s.last() == '\n' { 1nat } else { 0nat }
    }
}

/// Whether `s` fits on one line.
pub open spec fn single_line(s: Seq<char>) -> bool {
    forall|i: int| 0 <= i < s.len() ==> s[i] != '\n'
}

/// Whether every text of `t` that the listing shows fits on one line.
pub open spec fn shown_single_line(t: Track) -> bool {
    &&& single_line(t.name@)
    &&& single_line(t.album.name@)
    &&& forall|j: int| 0 <= j < t.album.artists@.len()
        ==> single_line(#[trigger] t.album.artists@[j].name@)
    &&& single_line(t.external_urls.spotify@)
}

proof fn lemma_line_count_concat(a: Seq<char>, b: Seq<char>)
    ensures
        line_count(a + b) == line_count(a) + line_count(b),
    decreases b.len(),
{
    if b.len() > 0 {
        assert((a + b).drop_last() =~= a + b.drop_last());
        lemma_line_count_concat(a, b.drop_last());
    }
}

proof fn lemma_single_line_count(s: Seq<char>)
    requires
        single_line(s),
    ensures
        line_count(s) == 0,
    decreases s.len(),
{
    if s.len() > 0 {
        lemma_single_line_count(s.drop_last());
    }
}

proof fn lemma_line_end_count()
    ensures
        line_count(" \n"@) == 1,
{
    reveal_strlit(" \n");
    let s = " \n"@;
    assert(s.len() == 2 && s[0] == ' ' && s[1] == '\n');
    assert(s.drop_last().drop_last() =~= Seq::<char>::empty());
    assert(line_count(s.drop_last().drop_last()) == 0);
    assert(line_count(s.drop_last()) == 0);
}

/// A line made of `label`, `text`, and the line end has one line end.
proof fn lemma_line_count_of_line(label: Seq<char>, text: Seq<char>)
    requires
        single_line(label),
        single_line(text),
    ensures
        line_count(label + text + " \n"@) == 1,
{
    lemma_single_line_count(label);
    lemma_single_line_count(text);
    lemma_line_end_count();
    lemma_line_count_concat(label, text);
    lemma_line_count_concat(label + text, " \n"@);
}

proof fn lemma_joined_single_line(artists: Seq<Artist>)
    requires
        forall|j: int| 0 <= j < artists.len() ==> single_line(#[trigger] artists[j].name@),
    ensures
        single_line(joined_names(artists)),
    decreases artists.len(),
{
    if artists.len() > 1 {
        let init = artists.drop_last();
        assert forall|j: int| 0 <= j < init.len() implies single_line(#[trigger] init[j].name@) by {
            assert(init[j] == artists[j]);
        }
        lemma_joined_single_line(init);
        reveal_strlit(", ");
        assert(single_line(", "@));
        assert(single_line(artists[artists.len() - 1].name@));
    }
}

proof fn lemma_block_line_count(t: Track)
    requires
        shown_single_line(t),
    ensures
        line_count(track_block(t)) == 5,
{
    reveal_strlit("🎶 TITLE: ");
    reveal_strlit("💿 ALBUM: ");
    reveal_strlit("🕺 ARTIST: ");
    reveal_strlit("🌎 LINK: ");
    reveal_strlit("------------------------------------------------------------------------------------------------------- \n");
    lemma_joined_single_line(t.album.artists@);
    lemma_line_count_of_line("🎶 TITLE: "@, t.name@);
    lemma_line_count_of_line("💿 ALBUM: "@, t.album.name@);
    lemma_line_count_of_line("🕺 ARTIST: "@, joined_names(t.album.artists@));
    lemma_line_count_of_line("🌎 LINK: "@, t.external_urls.spotify@);
    let sep = separator_line();
    assert(single_line(sep.drop_last()));
    lemma_single_line_count(sep.drop_last());
    lemma_line_count_concat(title_line(t), album_line(t));
    lemma_line_count_concat(title_line(t) + album_line(t), artist_line(t));
    lemma_line_count_concat(title_line(t) + album_line(t) + artist_line(t), link_line(t));
    lemma_line_count_concat(title_line(t) + album_line(t) + artist_line(t) + link_line(t), sep);
}

proof fn lemma_rendered_concat(a: Seq<Track>, b: Seq<Track>)
    ensures
        rendered(a + b) == rendered(a) + rendered(b),
    decreases b.len(),
{
    if b.len() == 0 {
        assert(a + b =~= a);
        assert(rendered(a) + rendered(b) =~= rendered(a));
    } else {
        assert((a + b).drop_last() =~= a + b.drop_last());
        assert((a + b).last() == b.last());
        lemma_rendered_concat(a, b.drop_last());
        assert(rendered(a + b) =~= rendered(a) + rendered(b));
    }
}

proof fn lemma_rendered_line_count(tracks: Seq<Track>)
    requires
        forall|i: int| 0 <= i < tracks.len() ==> shown_single_line(#[trigger] tracks[i]),
    ensures
        line_count(rendered(tracks)) == 5 * tracks.len(),
    decreases tracks.len(),
{
    if tracks.len() > 0 {
        let init = tracks.drop_last();
        assert forall|i: int| 0 <= i < init.len() implies shown_single_line(#[trigger] init[i]) by {
            assert(init[i] == tracks[i]);
        }
        lemma_rendered_line_count(init);
        lemma_block_line_count(tracks.last());
        lemma_line_count_concat(rendered(init), track_block(tracks.last()));
    }
}

/// The listing of no tracks is the empty text.
pub proof fn lemma_rendered_empty()
    ensures
        rendered(Seq::<Track>::empty()) == Seq::<char>::empty(),
{
}

/// Where no shown text of a track holds a line end, the listing has five
/// lines per track, and the lines `5 * i` to `5 * i + 4` are the block of
/// track `i`: its title, album, joined artists, own link and separator.
pub proof fn lemma_rendered_blocks(tracks: Seq<Track>)
    requires
        forall|i: int| 0 <= i < tracks.len() ==> shown_single_line(#[trigger] tracks[i]),
    ensures
        line_count(rendered(tracks)) == 5 * tracks.len(),
        forall|i: int| 0 <= i < tracks.len() ==> {
            &&& rendered(tracks) == rendered(tracks.take(i)) + #[trigger] track_block(tracks[i])
                + rendered(tracks.skip(i + 1))
            &&& line_count(rendered(tracks.take(i))) == 5 * i
        },
{
    lemma_rendered_line_count(tracks);
    assert forall|i: int| 0 <= i < tracks.len() implies {
        &&& rendered(tracks) == rendered(tracks.take(i)) + #[trigger] track_block(tracks[i])
            + rendered(tracks.skip(i + 1))
        &&& line_count(rendered(tracks.take(i))) == 5 * i
    } by {
        let front = tracks.take(i);
        let one = seq![tracks[i]];
        let back = tracks.skip(i + 1);
        assert(tracks =~= front + one + back);
        lemma_rendered_concat(front + one, back);
        lemma_rendered_concat(front, one);
        assert(one.drop_last() =~= Seq::<Track>::empty());
        assert(one.last() == tracks[i]);
        assert(rendered(one.drop_last()) == Seq::<char>::empty());
        assert(rendered(one) =~= track_block(tracks[i]));
        assert forall|k: int| 0 <= k < front.len() implies shown_single_line(#[trigger] front[k]) by {
            assert(front[k] == tracks[k]);
        }
        lemma_rendered_line_count(front);
    }
}

/// Joining artists' names: none give the empty text, one gives its name
/// with no separator, and two give both names around `", "`.
pub proof fn lemma_joined_names_small(a: Artist, b: Artist)
    ensures
        joined_names(Seq::<Artist>::empty()) == Seq::<char>::empty(),
        joined_names(seq![a]) == a.name@,
        joined_names(seq![a, b]) == a.name@ + ", "@ + b.name@,
{
    assert(seq![a, b].drop_last() =~= seq![a]);
}

} // verus!
