use vstd::prelude::*;
use vstd::string::StringExecFns;

verus! {

/// A performer in the catalog.
#[derive(Clone, Debug)]
pub struct Artist {
    pub id: u64,
    pub name: String,
}

/// A release in the catalog, with its credited artists (primary first).
#[derive(Clone, Debug)]
pub struct Album {
    pub id: u64,
    pub title: String,
    pub artists: Vec<Artist>,
}

/// A playable recording, with its credited artists (primary first) and its
/// length in seconds.
#[derive(Clone, Debug)]
pub struct Track {
    pub id: u64,
    pub title: String,
    pub artists: Vec<Artist>,
    pub duration: u32,
}

/// One entry of a result frame: the kinds of entry are fixed.
#[derive(Clone, Debug)]
pub enum Item {
    Track(Track),
    Album(Album),
    Artist(Artist),
}

/// What the caller must do after activating an entry.
#[derive(Copy, Clone, Debug, PartialEq, Eq, Structural)]
pub enum RequiredFetch {
    /// Resolve and play the stream of this track.
    Play(u64),
    /// Fetch the tracks of this album.
    AlbumTracks(u64),
    /// Fetch the albums of this artist.
    ArtistAlbums(u64),
}

/// Colour in which a piece of a label is drawn.
#[derive(Copy, Clone, Debug, PartialEq, Eq, Structural)]
pub enum Tint {
    Plain,
    Green,
    Cyan,
    Magenta,
}

/// A piece of a label: `text` fills exactly `width` columns, a source text cut
/// to that many characters or padded with spaces on the right.
#[derive(Clone, Debug)]
pub struct Span {
    pub text: String,
    pub width: usize,
    pub tint: Tint,
}

/// The one-line label of a catalog entry.
#[derive(Clone, Debug)]
pub struct Line {
    pub spans: Vec<Span>,
}

impl View for Span {
    type V = (Seq<char>, nat, Tint);

    open spec fn view(&self) -> (Seq<char>, nat, Tint) {
        (self.text@, self.width as nat, self.tint)
    }
}

impl View for Line {
    type V = Seq<(Seq<char>, nat, Tint)>;

    open spec fn view(&self) -> Seq<(Seq<char>, nat, Tint)> {
        self.spans@.map_values(|s: Span| s@)
    }
}

/// Width of the kind tag at the start of every label.
pub const TAG_WIDTH: usize = 9;

/// Width of the artist column of track and album labels.
pub const ARTIST_WIDTH: usize = 14;

/// Width of the title column of track and album labels.
pub const TITLE_WIDTH: usize = 35;

/// Width of the name column of artist labels.
pub const NAME_WIDTH: usize = 40;

/// `text` fitted to exactly `width` characters: its first `width` characters,
/// padded with spaces on the right when it is shorter.
pub open spec fn fitted(text: Seq<char>, width: nat) -> Seq<char> {
    if text.len() >= width {
        text.take(width as int)
    } else {
        text + Seq::new((width - text.len()) as nat, |i: int| ' ')
    }
}

/// The number of characters of a label.
pub open spec fn label_len(l: Seq<(Seq<char>, nat, Tint)>) -> nat
    decreases l.len(),
{
    if l.len() == 0 {
        0
    } else {
        label_len(l.drop_last()) + l.last().0.len()
    }
}

/// Fits a text to a column width, counted in characters.
pub fn fit(text: &str, width: usize) -> (r: String)
    ensures
        r@ == fitted(text@, width as nat),
{
    let n = text.unicode_len();
    if n >= width {
        return String::from_str(text.substring_char(0, width));
    }
    let mut r = String::from_str(text);
    let mut k: usize = n;
    proof {
        reveal_strlit(" ");
        assert(r@ =~= text@ + Seq::new((k - n) as nat, |i: int| ' '));
    }
    while k < width
        invariant
            n == text@.len(),
            n <= k <= width,
            r@ == text@ + Seq::new((k - n) as nat, |i: int| ' '),
        decreases width - k,
    {
        r.append(" ");
        proof {
            reveal_strlit(" ");
        }
        k = k + 1;
        assert(r@ =~= text@ + Seq::new((k - n) as nat, |i: int| ' '));
    }
    r
}

fn span(text: &str, width: usize, tint: Tint) -> (r: Span)
    ensures
        r@ == (fitted(text@, width as nat), width as nat, tint),
{
    Span { text: fit(text, width), width, tint }
}

/// Name shown for the primary artist: the first credited one, or `?`.
pub open spec fn primary_artist(artists: Seq<Artist>) -> Seq<char> {
    if artists.len() > 0 {
        artists[0].name@
    } else {
        "?"@
    }
}

/// The label of a track or album: tag, primary artist, a gap, title.
pub open spec fn credited_label(tag: Seq<char>, tint: Tint, artists: Seq<Artist>, title: Seq<char>) -> Seq<
    (Seq<char>, nat, Tint),
> {
    seq![
        (fitted(tag, TAG_WIDTH as nat), TAG_WIDTH as nat, tint),
        (fitted(primary_artist(artists), ARTIST_WIDTH as nat), ARTIST_WIDTH as nat, Tint::Magenta),
        (" "@, 1, Tint::Plain),
        (fitted(title, TITLE_WIDTH as nat), TITLE_WIDTH as nat, Tint::Plain),
    ]
}

impl Item {
    /// The step that activating this entry asks for.
    pub open spec fn required_fetch(self) -> RequiredFetch {
        match self {
            Item::Track(t) => RequiredFetch::Play(t.id),
            Item::Album(a) => RequiredFetch::AlbumTracks(a.id),
            Item::Artist(a) => RequiredFetch::ArtistAlbums(a.id),
        }
    }

    /// The label of this entry, piece by piece.
    pub open spec fn label(self) -> Seq<(Seq<char>, nat, Tint)> {
        match self {
            Item::Track(t) => credited_label("[track]"@, Tint::Green, t.artists@, t.title@),
            Item::Album(a) => credited_label("[album]"@, Tint::Cyan, a.artists@, a.title@),
            Item::Artist(a) => seq![
                (fitted("[artist]"@, TAG_WIDTH as nat), TAG_WIDTH as nat, Tint::Magenta),
                (fitted(a.name@, NAME_WIDTH as nat), NAME_WIDTH as nat, Tint::Plain),
            ],
        }
    }

    /// Play for a track, fetch the children of an album or artist.
    pub fn drill_into(&self) -> (r: RequiredFetch)
        ensures
            r == self.required_fetch(),
    {
        match self {
            Item::Track(t) => RequiredFetch::Play(t.id),
            Item::Album(a) => RequiredFetch::AlbumTracks(a.id),
            Item::Artist(a) => RequiredFetch::ArtistAlbums(a.id),
        }
    }

    /// The label shown for this entry in the list.
    pub fn to_line(&self) -> (r: Line)
        ensures
            r@ == self.label(),
    {
        match self {
            Item::Track(t) => credited_line("[track]", Tint::Green, &t.artists, &t.title),
            Item::Album(a) => credited_line("[album]", Tint::Cyan, &a.artists, &a.title),
            Item::Artist(a) => {
                let mut spans: Vec<Span> = Vec::new();
                spans.push(span("[artist]", TAG_WIDTH, Tint::Magenta));
                spans.push(span(a.name.as_str(), NAME_WIDTH, Tint::Plain));
                let r = Line { spans };
                assert(r@ =~= self.label());
                r
            },
        }
    }
}

fn credited_line(tag: &str, tint: Tint, artists: &Vec<Artist>, title: &String) -> (r: Line)
    ensures
        r@ == credited_label(tag@, tint, artists@, title@),
{
    let mut spans: Vec<Span> = Vec::new();
    spans.push(span(tag, TAG_WIDTH, tint));
    if artists.len() > 0 {
        spans.push(span(artists[0].name.as_str(), ARTIST_WIDTH, Tint::Magenta));
    } else {
        spans.push(span("?", ARTIST_WIDTH, Tint::Magenta));
    }
    proof {
        reveal_strlit(" ");
    }
    spans.push(Span { text: String::from_str(" "), width: 1, tint: Tint::Plain });
    spans.push(span(title.as_str(), TITLE_WIDTH, Tint::Plain));
    let r = Line { spans };
    assert(r@ =~= credited_label(tag@, tint, artists@, title@));
    r
}

/// Every label has a fixed width in characters: 59 for a track or an album,
/// 49 for an artist.
pub proof fn lemma_label_len(item: Item)
    ensures
        label_len(item.label()) == match item {
            Item::Artist(_) => TAG_WIDTH + NAME_WIDTH,
            _ => TAG_WIDTH + ARTIST_WIDTH + 1 + TITLE_WIDTH,
        },
{
    reveal_strlit(" ");
    let l = item.label();
    reveal_with_fuel(label_len, 5);
}

/// The navigation history as mathematics: the stack of frames and the cursor.
pub struct HistoryView {
    pub frames: Seq<Seq<Item>>,
    pub depth: nat,
}

impl HistoryView {
    /// The cursor points into a non-empty stack.
    pub open spec fn wf(self) -> bool {
        self.depth < self.frames.len()
    }

    /// The visible frame.
    pub open spec fn current(self) -> Seq<Item> {
        self.frames[self.depth as int]
    }

    /// Forward history dropped, the frame appended and made visible.
    pub open spec fn pushed(self, frame: Seq<Item>) -> HistoryView {
        HistoryView { frames: self.frames.take((self.depth + 1) as int).push(frame), depth: self.depth + 1 }
    }

    /// The cursor one frame back, or unchanged at the root; no frame is dropped.
    pub open spec fn backed(self) -> HistoryView {
        if self.depth > 0 {
            HistoryView { frames: self.frames, depth: (self.depth - 1) as nat }
        } else {
            self
        }
    }

    /// Every frame after the cursor dropped.
    pub open spec fn collapsed(self) -> HistoryView {
        HistoryView { frames: self.frames.take((self.depth + 1) as int), depth: self.depth }
    }
}

/// A stack of result frames with a cursor on the visible one. Frame 0 is the
/// root, empty at the start.
pub struct Items {
    item_history: Vec<Vec<Item>>,
    time: usize,
}

impl View for Items {
    type V = HistoryView;

    closed spec fn view(&self) -> HistoryView {
        HistoryView {
            frames: self.item_history@.map_values(|f: Vec<Item>| f@),
            depth: self.time as nat,
        }
    }
}

impl Items {
    /// The cursor points into the stack.
    pub closed spec fn wf(&self) -> bool {
        self.time < self.item_history@.len()
    }

    /// A well-formed history has a well-formed view.
    pub proof fn lemma_wf(&self)
        requires
            self.wf(),
        ensures
            self@.wf(),
    {
    }

    /// A history holding only the empty root frame.
    pub fn new() -> (r: Self)
        ensures
            r.wf(),
            r@.frames == seq![Seq::<Item>::empty()],
            r@.depth == 0,
    {
        let mut item_history: Vec<Vec<Item>> = Vec::new();
        item_history.push(Vec::new());
        let r = Items { item_history, time: 0 };
        assert(r@.frames =~= seq![Seq::<Item>::empty()]);
        r
    }

    /// Drops every frame after the visible one.
    pub fn collapse(&mut self)
        requires
            old(self).wf(),
        ensures
            final(self).wf(),
            final(self)@ == old(self)@.collapsed(),
    {
        let n = self.item_history.len();
        assert(self.time < n);
        self.item_history.truncate(self.time + 1);
        assert(self@.frames =~= old(self)@.collapsed().frames);
    }

    /// Number of frames before the visible one.
    pub fn depth(&self) -> (r: usize)
        ensures
            r as nat == self@.depth,
    {
        self.time
    }

    /// The visible frame.
    pub fn get(&self) -> (r: &Vec<Item>)
        requires
            self.wf(),
        ensures
            r@ == self@.current(),
    {
        &self.item_history[self.time]
    }

    /// Drops the forward history and shows `items` as a new frame.
    pub fn push(&mut self, items: Vec<Item>)
        requires
            old(self).wf(),
            old(self)@.depth + 1 < usize::MAX,
        ensures
            final(self).wf(),
            final(self)@ == old(self)@.pushed(items@),
    {
        self.item_history.truncate(self.time + 1);
        self.item_history.push(items);
        self.time = self.time + 1;
        assert(self@.frames =~= old(self)@.pushed(items@).frames);
    }

    /// Moves the cursor one frame back; a no-op at the root.
    pub fn back(&mut self)
        requires
            old(self).wf(),
        ensures
            final(self).wf(),
            final(self)@ == old(self)@.backed(),
    {
        if self.time >= 1 {
            self.time = self.time - 1;
        }
    }

    /// Shows the entries of a search as a new frame: artists, then albums,
    /// then tracks.
    pub fn from_search(&mut self, result: SearchResult)
        requires
            old(self).wf(),
            old(self)@.depth + 1 < usize::MAX,
        ensures
            final(self).wf(),
            final(self)@ == old(self)@.pushed(result.entries()),
    {
        let output = result.into_items();
        self.push(output);
    }
}

/// The three lists of a catalog search, any of which may be missing.
#[derive(Clone, Debug)]
pub struct SearchResult {
    pub artists: Option<Vec<Artist>>,
    pub albums: Option<Vec<Album>>,
    pub tracks: Option<Vec<Track>>,
}

/// Artist entries of a search, in order.
pub open spec fn artist_items(l: Option<Vec<Artist>>) -> Seq<Item> {
    match l {
        Some(v) => v@.map_values(|a: Artist| Item::Artist(a)),
        None => Seq::empty(),
    }
}

/// Album entries of a search, in order.
pub open spec fn album_items(l: Option<Vec<Album>>) -> Seq<Item> {
    match l {
        Some(v) => v@.map_values(|a: Album| Item::Album(a)),
        None => Seq::empty(),
    }
}

/// Track entries of a search, in order.
pub open spec fn track_items(l: Option<Vec<Track>>) -> Seq<Item> {
    match l {
        Some(v) => v@.map_values(|t: Track| Item::Track(t)),
        None => Seq::empty(),
    }
}

impl SearchResult {
    /// The entries of the result in the order they are shown.
    pub open spec fn entries(self) -> Seq<Item> {
        artist_items(self.artists) + album_items(self.albums) + track_items(self.tracks)
    }

    /// The entries in the order they are shown: artists, albums, tracks.
    pub fn into_items(self) -> (r: Vec<Item>)
        ensures
            r@ == self.entries(),
    {
        let mut output: Vec<Item> = Vec::new();
        if let Some(artists) = self.artists {
            append_artists(&mut output, artists);
        }
        assert(output@ =~= artist_items(self.artists));
        if let Some(albums) = self.albums {
            append_albums(&mut output, albums);
        }
        assert(output@ =~= artist_items(self.artists) + album_items(self.albums));
        if let Some(tracks) = self.tracks {
            append_tracks(&mut output, tracks);
        }
        assert(output@ =~= self.entries());
        output
    }
}

fn append_artists(output: &mut Vec<Item>, list: Vec<Artist>)
    ensures
        final(output)@ == old(output)@ + list@.map_values(|a: Artist| Item::Artist(a)),
{
    let mut rest = list;
    while rest.len() > 0
        invariant
            output@ + rest@.map_values(|a: Artist| Item::Artist(a)) == old(output)@ + list@.map_values(
                |a: Artist| Item::Artist(a),
            ),
        decreases rest@.len(),
    {
        let ghost before = rest@;
        let a = rest.remove(0);
        output.push(Item::Artist(a));
        assert(before.map_values(|a: Artist| Item::Artist(a)) =~= seq![Item::Artist(a)] + rest@.map_values(
            |a: Artist| Item::Artist(a),
        ));
        assert(output@ + rest@.map_values(|a: Artist| Item::Artist(a)) =~= old(output)@ + list@.map_values(
            |a: Artist| Item::Artist(a),
        ));
    }
    assert(rest@.map_values(|a: Artist| Item::Artist(a)) =~= Seq::<Item>::empty());
    assert(output@ =~= output@ + Seq::<Item>::empty());
}

fn append_albums(output: &mut Vec<Item>, list: Vec<Album>)
    ensures
        final(output)@ == old(output)@ + list@.map_values(|a: Album| Item::Album(a)),
{
    let mut rest = list;
    while rest.len() > 0
        invariant
            output@ + rest@.map_values(|a: Album| Item::Album(a)) == old(output)@ + list@.map_values(
                |a: Album| Item::Album(a),
            ),
        decreases rest@.len(),
    {
        let ghost before = rest@;
        let a = rest.remove(0);
        output.push(Item::Album(a));
        assert(before.map_values(|a: Album| Item::Album(a)) =~= seq![Item::Album(a)] + rest@.map_values(
            |a: Album| Item::Album(a),
        ));
        assert(output@ + rest@.map_values(|a: Album| Item::Album(a)) =~= old(output)@ + list@.map_values(
            |a: Album| Item::Album(a),
        ));
    }
    assert(rest@.map_values(|a: Album| Item::Album(a)) =~= Seq::<Item>::empty());
    assert(output@ =~= output@ + Seq::<Item>::empty());
}

fn append_tracks(output: &mut Vec<Item>, list: Vec<Track>)
    ensures
        final(output)@ == old(output)@ + list@.map_values(|t: Track| Item::Track(t)),
{
    let mut rest = list;
    while rest.len() > 0
        invariant
            output@ + rest@.map_values(|t: Track| Item::Track(t)) == old(output)@ + list@.map_values(
                |t: Track| Item::Track(t),
            ),
        decreases rest@.len(),
    {
        let ghost before = rest@;
        let t = rest.remove(0);
        output.push(Item::Track(t));
        assert(before.map_values(|t: Track| Item::Track(t)) =~= seq![Item::Track(t)] + rest@.map_values(
            |t: Track| Item::Track(t),
        ));
        assert(output@ + rest@.map_values(|t: Track| Item::Track(t)) =~= old(output)@ + list@.map_values(
            |t: Track| Item::Track(t),
        ));
    }
    assert(rest@.map_values(|t: Track| Item::Track(t)) =~= Seq::<Item>::empty());
    assert(output@ =~= output@ + Seq::<Item>::empty());
}

} // verus!
