//! Embeds that stay within the chat platform's size limits: text is cut at a
//! character or line boundary, and content that would push a message past
//! its total budget is left out and a note says so.
//!
//! Lengths are UTF-8 byte counts, as the platform counts them.
use vstd::prelude::*;
use vstd::utf8::{
    decode_utf8, encode_utf8, encode_utf8_decode_utf8, encode_utf8_valid_utf8, is_char_boundary,
    is_char_boundary_iff_is_leading_byte, is_char_boundary_start_end_of_seq,
    is_leading_byte_width_1,
};

verus! {

/// The UTF-8 encoding of a string's characters.
pub open spec fn bytes_of(s: Seq<char>) -> Seq<u8> {
    encode_utf8(s)
}

/// The length of `s` in bytes.
pub fn byte_len(s: &str) -> (n: usize)
    ensures
        n == bytes_of(s@).len(),
{
    s.as_bytes().len()
}

/// Encoding a concatenation is concatenating the encodings.
pub proof fn lemma_bytes_of_concat(a: Seq<char>, b: Seq<char>)
    ensures
        bytes_of(a + b) == bytes_of(a) + bytes_of(b),
    decreases a.len(),
{
    if a.len() == 0 {
        assert(a + b =~= b);
        assert(bytes_of(a) =~= Seq::<u8>::empty());
        assert(bytes_of(a) + bytes_of(b) =~= bytes_of(b));
    } else {
        assert((a + b).drop_first() =~= a.drop_first() + b);
        lemma_bytes_of_concat(a.drop_first(), b);
        assert(bytes_of(a + b) =~= bytes_of(a) + bytes_of(b));
    }
}

/// The last character boundary at or before `i`.
pub open spec fn char_floor(b: Seq<u8>, i: int) -> int
    decreases i,
{
    if i <= 0 {
        0
    } else if is_char_boundary(b, i) {
        i
    } else {
        char_floor(b, i - 1)
    }
}

/// The last position at or before `i` that holds a line feed, or 0.
pub open spec fn newline_floor(b: Seq<u8>, i: int) -> int
    decreases i,
{
    if i <= 0 {
        0
    } else if b[i] == 10u8 {
        i
    } else {
        newline_floor(b, i - 1)
    }
}

/// Where text is cut when it is too long.
pub enum Boundary {
    /// At a character boundary.
    Char,
    /// Before a line feed, or at the very start when there is none.
    Newline,
}

pub open spec fn cut_point(boundary: Boundary, b: Seq<u8>, i: int) -> int {
    match boundary {
        Boundary::Char => char_floor(b, i),
        Boundary::Newline => newline_floor(b, i),
    }
}

/// `b` cut down to at most `max` bytes, with `trim` appended where it was
/// cut; empty when not even `trim` fits.
pub open spec fn truncated(b: Seq<u8>, max: int, trim: Seq<u8>, boundary: Boundary) -> Seq<u8> {
    if max < trim.len() {
        Seq::empty()
    } else if max >= b.len() {
        b
    } else {
        b.take(cut_point(boundary, b, max - trim.len())) + trim
    }
}

proof fn lemma_newline_floor(b: Seq<u8>, i: int)
    requires
        0 <= i < b.len(),
        vstd::utf8::valid_utf8(b),
    ensures
        0 <= newline_floor(b, i) <= i,
        is_char_boundary(b, newline_floor(b, i)),
    decreases i,
{
    is_char_boundary_start_end_of_seq(b);
    if i > 0 {
        if b[i] == 10u8 {
            assert(is_leading_byte_width_1(b[i]));
            is_char_boundary_iff_is_leading_byte(b, i);
        } else {
            lemma_newline_floor(b, i - 1);
        }
    }
}

/// Cuts `s` to at most `max_len` bytes at the given kind of boundary and
/// appends `trim_str` where it was cut; empties `s` when not even
/// `trim_str` fits.
fn truncate_string_backwards(s: &mut String, max_len: usize, trim_str: &str, boundary: Boundary)
    ensures
        bytes_of(final(s)@) == truncated(
            bytes_of(old(s)@),
            max_len as int,
            bytes_of(trim_str@),
            boundary,
        ),
{
    let ghost b = bytes_of(s@);
    proof {
        encode_utf8_valid_utf8(s@);
    }
    let trim_len = byte_len(trim_str);
    if max_len < trim_len {
        *s = String::new();
        proof {
            assert(bytes_of(s@) =~= Seq::<u8>::empty());
        }
        return;
    }
    if max_len >= byte_len(s.as_str()) {
        return;
    }
    let start = max_len - trim_len;
    let mut idx = start;
    match boundary {
        Boundary::Char => {
            while !s.as_str().is_char_boundary(idx)
                invariant
                    b == bytes_of(s@),
                    vstd::utf8::valid_utf8(b),
                    0 <= idx <= start < b.len(),
                    char_floor(b, start as int) == char_floor(b, idx as int),
                decreases idx,
            {
                idx = idx - 1;
            }
        },
        Boundary::Newline => {
            let bytes = s.as_str().as_bytes();
            while bytes[idx] != 10u8 && idx > 0
                invariant
                    b == bytes_of(s@),
                    bytes@ == b,
                    vstd::utf8::valid_utf8(b),
                    0 <= idx <= start < b.len(),
                    newline_floor(b, start as int) == newline_floor(b, idx as int),
                decreases idx,
            {
                idx = idx - 1;
            }
            proof {
                lemma_newline_floor(b, idx as int);
            }
        },
    }
    proof {
        is_char_boundary_start_end_of_seq(b);
        assert(idx as int == cut_point(boundary, b, start as int));
    }
    let (head, _) = s.as_str().split_at(idx);
    let mut r = head.to_owned();
    r.append(trim_str);
    proof {
        lemma_bytes_of_concat(head@, trim_str@);
    }
    *s = r;
}

/// Cuts `s` to at most `max_len` bytes at a character boundary, ending it
/// with `...`.
pub fn truncate_string_to_char_boundary(s: &mut String, max_len: usize)
    ensures
        bytes_of(final(s)@) == truncated(
            bytes_of(old(s)@),
            max_len as int,
            bytes_of("..."@),
            Boundary::Char,
        ),
{
    truncate_string_backwards(s, max_len, "...", Boundary::Char);
}

/// Cuts `s` to at most `max_len` bytes before a line feed, ending it with a
/// line holding `...`.
pub fn truncate_string_to_newline_boundary(s: &mut String, max_len: usize)
    ensures
        bytes_of(final(s)@) == truncated(
            bytes_of(old(s)@),
            max_len as int,
            bytes_of("\n..."@),
            Boundary::Newline,
        ),
{
    truncate_string_backwards(s, max_len, "\n...", Boundary::Newline);
}

/// `s` cut as `truncated` describes, as characters.
pub open spec fn trimmed(s: Seq<char>, max: int, trim: Seq<char>, boundary: Boundary) -> Seq<char> {
    decode_utf8(truncated(bytes_of(s), max, bytes_of(trim), boundary))
}

/// What `truncate_string_to_char_boundary` makes of `s`.
pub open spec fn char_trimmed(s: Seq<char>, max: int) -> Seq<char> {
    trimmed(s, max, "..."@, Boundary::Char)
}

/// Cuts `s` as `truncate_string_to_char_boundary` does and returns the
/// result with its length in bytes.
fn trim_to(s: String, max_len: usize) -> (r: (String, usize))
    ensures
        r.0@ == char_trimmed(s@, max_len as int),
        r.1 == truncated(bytes_of(s@), max_len as int, bytes_of("..."@), Boundary::Char).len(),
{
    let mut s = s;
    truncate_string_to_char_boundary(&mut s, max_len);
    proof {
        encode_utf8_decode_utf8(s@);
    }
    let n = byte_len(s.as_str());
    (s, n)
}

/// The most an embed message may hold, in bytes, over all its embeds.
pub const EMBED_MAX_SIZE: usize = 6000;

/// Whether `val` more bytes fit in a message that holds `used`, keeping
/// `buffer` bytes free.
pub open spec fn fits(used: nat, val: nat, buffer: nat) -> bool {
    used + val + buffer <= EMBED_MAX_SIZE
}

/// The bytes a message has used so far.
#[derive(Clone, Debug)]
pub struct Size(usize);

impl Size {
    pub closed spec fn used(&self) -> nat {
        self.0 as nat
    }

    /// Nothing used yet.
    pub fn new() -> (r: Self)
        ensures
            r.used() == 0,
    {
        Size(0)
    }

    fn value(&self) -> (r: usize)
        ensures
            r == self.used(),
    {
        self.0
    }

    /// Takes `val` bytes if they fit with `buffer` bytes to spare, and says
    /// whether they did.
    fn add(&mut self, val: usize, buffer: usize) -> (r: bool)
        ensures
            r == fits(old(self).used(), val as nat, buffer as nat),
            final(self).used() == old(self).used() + if r {
                val as nat
            } else {
                0nat
            },
    {
        if val <= EMBED_MAX_SIZE && buffer <= EMBED_MAX_SIZE && val + buffer <= EMBED_MAX_SIZE
            && self.0 <= EMBED_MAX_SIZE - val - buffer {
            self.0 = self.0 + val;
            true
        } else {
            false
        }
    }
}

/// A field of an embed: name, value, and whether it is shown inline.
#[derive(Clone, Debug)]
pub struct EmbedField {
    pub name: String,
    pub value: String,
    pub inline: bool,
}

/// A rich message part, as the chat platform shows it.
#[derive(Clone, Debug)]
pub struct Embed {
    pub title: Option<String>,
    pub description: Option<String>,
    pub fields: Vec<EmbedField>,
    pub footer: Option<String>,
    /// Seconds since the Unix epoch.
    pub timestamp: Option<i64>,
    /// 0xRRGGBB.
    pub colour: Option<u32>,
}

pub struct EmbedView {
    pub title: Option<Seq<char>>,
    pub description: Option<Seq<char>>,
    pub fields: Seq<(Seq<char>, Seq<char>, bool)>,
    pub footer: Option<Seq<char>>,
    pub timestamp: Option<i64>,
    pub colour: Option<u32>,
}

pub open spec fn opt_view(s: Option<String>) -> Option<Seq<char>> {
    match s {
        Some(t) => Some(t@),
        None => None,
    }
}

pub open spec fn field_view(f: EmbedField) -> (Seq<char>, Seq<char>, bool) {
    (f.name@, f.value@, f.inline)
}

impl View for Embed {
    type V = EmbedView;

    open spec fn view(&self) -> EmbedView {
        EmbedView {
            title: opt_view(self.title),
            description: opt_view(self.description),
            fields: self.fields@.map_values(|f: EmbedField| field_view(f)),
            footer: opt_view(self.footer),
            timestamp: self.timestamp,
            colour: self.colour,
        }
    }
}

pub open spec fn empty_embed() -> EmbedView {
    EmbedView {
        title: None,
        description: None,
        fields: Seq::empty(),
        footer: None,
        timestamp: None,
        colour: None,
    }
}

impl Embed {
    /// An embed with nothing in it.
    pub fn new() -> (r: Self)
        ensures
            r@ == empty_embed(),
    {
        let r = Embed {
            title: None,
            description: None,
            fields: Vec::new(),
            footer: None,
            timestamp: None,
            colour: None,
        };
        proof {
            assert(r@.fields =~= Seq::<(Seq<char>, Seq<char>, bool)>::empty());
        }
        r
    }
}

/// Settings for an embed that is to be filled within a size budget.
pub struct TrimmedEmbed {
    too_big_msg: String,
    truncate_description_newline: bool,
}

/// Model of a `TrimmedEmbed`: the note shown when content was left out,
/// and whether descriptions are cut at line boundaries.
pub struct TrimmedEmbedView {
    pub too_big_msg: Seq<char>,
    pub newline: bool,
}

impl View for TrimmedEmbed {
    type V = TrimmedEmbedView;

    closed spec fn view(&self) -> TrimmedEmbedView {
        TrimmedEmbedView {
            too_big_msg: self.too_big_msg@,
            newline: self.truncate_description_newline,
        }
    }
}

/// An embed being filled: its content so far, whether anything was left
/// out, and its settings.
pub struct TrimmedEmbedBuilder {
    embed: Embed,
    overflowed: bool,
    builder: TrimmedEmbed,
}

pub struct BuilderView {
    pub embed: EmbedView,
    pub overflowed: bool,
    pub settings: TrimmedEmbedView,
}

impl View for TrimmedEmbedBuilder {
    type V = BuilderView;

    closed spec fn view(&self) -> BuilderView {
        BuilderView { embed: self.embed@, overflowed: self.overflowed, settings: self.builder@ }
    }
}

/// A builder with nothing placed yet.
pub open spec fn fresh(settings: TrimmedEmbedView) -> BuilderView {
    BuilderView { embed: empty_embed(), overflowed: false, settings }
}

/// The bytes kept free for the note: its length and a line break, or
/// nothing when there is no note.
pub open spec fn msg_buffer(msg: Seq<char>) -> nat {
    let n = bytes_of(msg).len();
    if n == 0 {
        0
    } else {
        n + 1
    }
}

/// Placing `t` (bytes) with `place` when it fits, else marking the builder
/// as having left content out; also gives the bytes used afterwards.
pub open spec fn placed(
    b: BuilderView,
    used: nat,
    t: Seq<u8>,
    placed_embed: EmbedView,
) -> (BuilderView, nat) {
    if fits(used, t.len(), msg_buffer(b.settings.too_big_msg)) {
        (BuilderView { embed: placed_embed, ..b }, used + t.len())
    } else {
        (BuilderView { overflowed: true, ..b }, used)
    }
}

pub open spec fn with_title(b: BuilderView, used: nat, s: Seq<char>) -> (BuilderView, nat) {
    let t = truncated(bytes_of(s), 256, bytes_of("..."@), Boundary::Char);
    placed(b, used, t, EmbedView { title: Some(decode_utf8(t)), ..b.embed })
}

/// Descriptions may take 4096 bytes, or as many as are used already when
/// that is more.
pub open spec fn description_limit(used: nat) -> nat {
    if used > 4096 {
        used
    } else {
        4096
    }
}

pub open spec fn description_bytes(b: BuilderView, used: nat, s: Seq<char>) -> Seq<u8> {
    if b.settings.newline {
        truncated(
            bytes_of(s),
            description_limit(used) as int,
            bytes_of("\n..."@),
            Boundary::Newline,
        )
    } else {
        truncated(bytes_of(s), description_limit(used) as int, bytes_of("..."@), Boundary::Char)
    }
}

pub open spec fn with_description(b: BuilderView, used: nat, s: Seq<char>) -> (BuilderView, nat) {
    let t = description_bytes(b, used, s);
    placed(b, used, t, EmbedView { description: Some(decode_utf8(t)), ..b.embed })
}

/// Fields are placed in order until one does not fit; that one and the
/// rest are left out.
pub open spec fn with_fields(
    b: BuilderView,
    used: nat,
    items: Seq<(Seq<char>, Seq<char>, bool)>,
) -> (BuilderView, nat)
    decreases items.len(),
{
    if items.len() == 0 {
        (b, used)
    } else {
        let name = truncated(bytes_of(items[0].0), 256, bytes_of("..."@), Boundary::Char);
        let value = truncated(bytes_of(items[0].1), 1024, bytes_of("..."@), Boundary::Char);
        let cost = name.len() + value.len();
        if fits(used, cost, msg_buffer(b.settings.too_big_msg)) {
            with_fields(
                BuilderView {
                    embed: EmbedView {
                        fields: b.embed.fields.push(
                            (decode_utf8(name), decode_utf8(value), items[0].2),
                        ),
                        ..b.embed
                    },
                    ..b
                },
                used + cost,
                items.drop_first(),
            )
        } else {
            (BuilderView { overflowed: true, ..b }, used)
        }
    }
}

pub open spec fn items_view(items: Seq<(String, String, bool)>) -> Seq<(Seq<char>, Seq<char>, bool)> {
    items.map_values(|f: (String, String, bool)| (f.0@, f.1@, f.2))
}

/// The finished embed: the content, with the note added to the footer when
/// something was left out.
pub open spec fn finished(b: BuilderView) -> EmbedView {
    if !b.overflowed {
        b.embed
    } else {
        EmbedView {
            footer: Some(
                match b.embed.footer {
                    Some(f) => f + "\n"@ + b.settings.too_big_msg,
                    None => b.settings.too_big_msg,
                },
            ),
            ..b.embed
        }
    }
}

impl TrimmedEmbed {
    fn make_builder(self) -> (r: TrimmedEmbedBuilder)
        ensures
            r@ == fresh(self@),
    {
        TrimmedEmbedBuilder::new(self)
    }

    /// Default note, descriptions cut at character boundaries.
    pub fn new() -> (r: Self)
        ensures
            r@ == (TrimmedEmbedView {
                too_big_msg: "Too much data, some fields have been skipped."@,
                newline: false,
            }),
    {
        TrimmedEmbed {
            too_big_msg: String::from_str("Too much data, some fields have been skipped."),
            truncate_description_newline: false,
        }
    }

    /// Sets the note shown when content is left out; an empty note shows
    /// nothing and reserves no room.
    pub fn too_big_msg(self, s: &str) -> (r: Self)
        ensures
            r@ == (TrimmedEmbedView { too_big_msg: s@, ..self@ }),
    {
        TrimmedEmbed {
            too_big_msg: String::from_str(s),
            truncate_description_newline: self.truncate_description_newline,
        }
    }

    /// Cuts descriptions before a line feed rather than anywhere.
    pub fn truncate_description_newline(self) -> (r: Self)
        ensures
            r@ == (TrimmedEmbedView { newline: true, ..self@ }),
    {
        let mut me = self;
        me.truncate_description_newline = true;
        me
    }

    pub fn title(self, size: &mut Size, s: String) -> (r: TrimmedEmbedBuilder)
        ensures
            (r@, final(size).used()) == with_title(fresh(self@), old(size).used(), s@),
    {
        self.make_builder().title(size, s)
    }

    pub fn description(self, size: &mut Size, s: String) -> (r: TrimmedEmbedBuilder)
        ensures
            (r@, final(size).used()) == with_description(fresh(self@), old(size).used(), s@),
    {
        self.make_builder().description(size, s)
    }

    pub fn fields(self, size: &mut Size, fields: Vec<(String, String, bool)>) -> (r:
        TrimmedEmbedBuilder)
        ensures
            (r@, final(size).used()) == with_fields(
                fresh(self@),
                old(size).used(),
                items_view(fields@),
            ),
    {
        self.make_builder().fields(size, fields)
    }

    pub fn field(self, size: &mut Size, name: String, value: String, inline: bool) -> (r:
        TrimmedEmbedBuilder)
        ensures
            (r@, final(size).used()) == with_fields(
                fresh(self@),
                old(size).used(),
                seq![(name@, value@, inline)],
            ),
    {
        self.make_builder().field(size, name, value, inline)
    }

    pub fn timestamp(self, timestamp: i64) -> (r: TrimmedEmbedBuilder)
        ensures
            r@ == (BuilderView {
                embed: EmbedView { timestamp: Some(timestamp), ..empty_embed() },
                ..fresh(self@)
            }),
    {
        self.make_builder().timestamp(timestamp)
    }

    pub fn colour(self, colour: u32) -> (r: TrimmedEmbedBuilder)
        ensures
            r@ == (BuilderView {
                embed: EmbedView { colour: Some(colour), ..empty_embed() },
                ..fresh(self@)
            }),
    {
        self.make_builder().colour(colour)
    }

    pub fn color(self, color: u32) -> (r: TrimmedEmbedBuilder)
        ensures
            r@ == (BuilderView {
                embed: EmbedView { colour: Some(color), ..empty_embed() },
                ..fresh(self@)
            }),
    {
        self.make_builder().color(color)
    }

    /// The embed with nothing placed in it.
    pub fn into_embed(self) -> (r: Embed)
        ensures
            r@ == finished(fresh(self@)),
    {
        self.make_builder().into_embed()
    }
}

impl TrimmedEmbedBuilder {
    fn too_big_msg_length(&self) -> (r: usize)
        ensures
            forall|used: nat, val: nat|
                fits(used, val, r as nat) == fits(used, val, msg_buffer(self@.settings.too_big_msg)),
    {
        let msg_len = byte_len(self.builder.too_big_msg.as_str());
        if msg_len == 0 {
            0
        } else {
            msg_len.saturating_add(1)
        }
    }

    fn new(builder: TrimmedEmbed) -> (r: Self)
        ensures
            r@ == fresh(builder@),
    {
        TrimmedEmbedBuilder { embed: Embed::new(), overflowed: false, builder }
    }

    /// Sets the title, cut to 256 bytes, if it fits in the budget.
    pub fn title(self, size: &mut Size, s: String) -> (r: Self)
        ensures
            (r@, final(size).used()) == with_title(self@, old(size).used(), s@),
    {
        let mut me = self;
        let (t, n) = trim_to(s, 256);
        if size.add(n, me.too_big_msg_length()) {
            me.embed.title = Some(t);
        } else {
            me.overflowed = true;
        }
        proof {
            assert(me@.embed =~= with_title(self@, old(size).used(), s@).0.embed);
        }
        me
    }

    /// Sets the description, cut to 4096 bytes (or to the bytes used so far,
    /// when more), if it fits in the budget.
    pub fn description(self, size: &mut Size, s: String) -> (r: Self)
        ensures
            (r@, final(size).used()) == with_description(self@, old(size).used(), s@),
    {
        let mut me = self;
        let ghost s0 = s@;
        let mut s = s;
        let used = size.value();
        let limit = if used > 4096 {
            used
        } else {
            4096
        };
        if me.builder.truncate_description_newline {
            truncate_string_to_newline_boundary(&mut s, limit);
        } else {
            truncate_string_to_char_boundary(&mut s, limit);
        }
        proof {
            encode_utf8_decode_utf8(s@);
        }
        let n = byte_len(s.as_str());
        if size.add(n, me.too_big_msg_length()) {
            me.embed.description = Some(s);
        } else {
            me.overflowed = true;
        }
        proof {
            assert(me@.embed =~= with_description(self@, old(size).used(), s0).0.embed);
        }
        me
    }

    /// Adds the fields in order, names cut to 256 bytes and values to 1024,
    /// until one does not fit in the budget; the rest are left out.
    pub fn fields(self, size: &mut Size, fields: Vec<(String, String, bool)>) -> (r: Self)
        ensures
            (r@, final(size).used()) == with_fields(self@, old(size).used(), items_view(fields@)),
    {
        let mut me = self;
        let ghost items = items_view(fields@);
        let ghost goal = with_fields(self@, old(size).used(), items);
        let buffer = me.too_big_msg_length();
        let mut i: usize = 0;
        proof {
            assert(items.skip(0) =~= items);
        }
        while i < fields.len()
            invariant_except_break
                0 <= i <= fields@.len(),
                items == items_view(fields@),
                goal == with_fields(me@, size.used(), items.skip(i as int)),
                forall|used: nat, val: nat|
                    fits(used, val, buffer as nat) == fits(
                        used,
                        val,
                        msg_buffer(me@.settings.too_big_msg),
                    ),
            ensures
                goal == (me@, size.used()),
            decreases fields@.len() - i,
        {
            let (name, n) = trim_to(fields[i].0.clone(), 256);
            let (value, v) = trim_to(fields[i].1.clone(), 1024);
            let inline = fields[i].2;
            proof {
                assert(items.skip(i as int)[0] == items[i as int]);
                assert(items.skip(i as int).drop_first() =~= items.skip(i + 1));
            }
            if n <= EMBED_MAX_SIZE && v <= EMBED_MAX_SIZE && size.add(n + v, buffer) {
                let ghost before = me@;
                me.embed.fields.push(EmbedField { name, value, inline });
                proof {
                    assert(me@.embed.fields =~= before.embed.fields.push(
                        (name@, value@, inline),
                    ));
                }
                i = i + 1;
            } else {
                me.overflowed = true;
                break;
            }
        }
        proof {
            if i == fields.len() {
                assert(items.skip(i as int) =~= Seq::<(Seq<char>, Seq<char>, bool)>::empty());
            }
        }
        me
    }

    pub fn field(self, size: &mut Size, name: String, value: String, inline: bool) -> (r: Self)
        ensures
            (r@, final(size).used()) == with_fields(
                self@,
                old(size).used(),
                seq![(name@, value@, inline)],
            ),
    {
        let ghost item = (name@, value@, inline);
        let fields = vec![(name, value, inline)];
        proof {
            assert(items_view(fields@) =~= seq![item]);
        }
        self.fields(size, fields)
    }

    pub fn timestamp(self, timestamp: i64) -> (r: Self)
        ensures
            r@ == (BuilderView {
                embed: EmbedView { timestamp: Some(timestamp), ..self@.embed },
                ..self@
            }),
    {
        let mut me = self;
        me.embed.timestamp = Some(timestamp);
        me
    }

    pub fn colour(self, colour: u32) -> (r: Self)
        ensures
            r@ == (BuilderView { embed: EmbedView { colour: Some(colour), ..self@.embed }, ..self@ }),
    {
        let mut me = self;
        me.embed.colour = Some(colour);
        me
    }

    pub fn color(self, color: u32) -> (r: Self)
        ensures
            r@ == (BuilderView { embed: EmbedView { colour: Some(color), ..self@.embed }, ..self@ }),
    {
        self.colour(color)
    }

    /// The finished embed (see `finished`).
    pub fn into_embed(self) -> (r: Embed)
        ensures
            r@ == finished(self@),
    {
        let mut me = self;
        if !me.overflowed {
            return me.embed;
        }
        let footer = match me.embed.footer {
            Some(f) => {
                let mut f = f;
                f.append("\n");
                f.append(me.builder.too_big_msg.as_str());
                f
            },
            None => me.builder.too_big_msg.clone(),
        };
        me.embed.footer = Some(footer);
        me.embed
    }
}

} // verus!
