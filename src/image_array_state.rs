use vstd::prelude::*;
use vstd::utf8::{encode_utf8, is_ascii_chars, is_ascii_chars_encode_utf8};

use crate::text::{push_char, push_str};

verus! {

/// A directory of same-sized textures and the order in which they form an image array.
/// The order is kept in the directory's `ias.txt`: one texture name per line, each
/// line ended by a newline byte; a texture `t` is the file `<path>/<t>.png`.
pub struct ImageArrayState {
    pub path: String,
    pub textures: Vec<String>,
}

/// The texture names of a list, as character sequences.
pub open spec fn names(v: Seq<String>) -> Seq<Seq<char>> {
    v.map_values(|t: String| t@)
}

/// Reading `ias.txt`: each byte is taken as the character of the same number; a
/// newline byte ends the current name. Returns the finished names and the name still
/// being read when the bytes end.
pub open spec fn read_lines(bytes: Seq<u8>) -> (Seq<Seq<char>>, Seq<char>)
    decreases bytes.len(),
{
    if bytes.len() == 0 {
        (Seq::empty(), Seq::empty())
    } else {
        let (done, current) = read_lines(bytes.drop_last());
        if bytes.last() == 10u8 {
            (done.push(current), Seq::empty())
        } else {
            (done, current.push(bytes.last() as char))
        }
    }
}

/// Writing `ias.txt`: the UTF-8 bytes of each name, each followed by a newline byte.
pub open spec fn write_lines(names: Seq<Seq<char>>) -> Seq<u8>
    decreases names.len(),
{
    if names.len() == 0 {
        Seq::empty()
    } else {
        write_lines(names.drop_last()) + encode_utf8(names.last()) + seq![10u8]
    }
}

/// A name that `ias.txt` can hold and give back unchanged.
pub open spec fn storable_name(name: Seq<char>) -> bool {
    is_ascii_chars(name) && !name.contains('\n')
}

/// Reading bytes that hold no newline extends the name being read by their characters.
proof fn lemma_read_without_newline(prefix: Seq<u8>, s: Seq<u8>)
    requires
        !s.contains(10u8),
    ensures
        read_lines(prefix + s) == (read_lines(prefix).0, read_lines(prefix).1 + s.map_values(|b: u8| b as char)),
    decreases s.len(),
{
    if s.len() == 0 {
        assert(prefix + s =~= prefix);
        assert(read_lines(prefix).1 + s.map_values(|b: u8| b as char) =~= read_lines(prefix).1);
    } else {
        assert(!s.drop_last().contains(10u8)) by {
            if s.drop_last().contains(10u8) {
                let k = choose|k: int| 0 <= k < s.drop_last().len() && s.drop_last()[k] == 10u8;
                assert(s[k] == 10u8);
            }
        };
        lemma_read_without_newline(prefix, s.drop_last());
        assert((prefix + s).drop_last() =~= prefix + s.drop_last());
        assert(s[s.len() - 1] != 10u8);
        assert(s.map_values(|b: u8| b as char) =~= s.drop_last().map_values(|b: u8| b as char).push(
            s.last() as char,
        ));
    }
}

/// Storing texture names and loading them back gives the same names, wherever every
/// name is ASCII and holds no newline.
pub proof fn lemma_store_then_load(textures: Seq<String>)
    requires
        forall|i: int| 0 <= i < textures.len() ==> storable_name(#[trigger] textures[i]@),
    ensures
        read_lines(write_lines(names(textures))).0 == names(textures),
{
    lemma_write_read(names(textures));
}

proof fn lemma_write_read(ts: Seq<Seq<char>>)
    requires
        forall|i: int| 0 <= i < ts.len() ==> storable_name(#[trigger] ts[i]),
    ensures
        read_lines(write_lines(ts)) == (ts, Seq::<char>::empty()),
    decreases ts.len(),
{
    if ts.len() > 0 {
        let rest = ts.drop_last();
        let t = ts.last();
        assert(storable_name(ts[ts.len() - 1]));
        lemma_write_read(rest);
        let b = write_lines(rest);
        let e = encode_utf8(t);
        is_ascii_chars_encode_utf8(t);
        assert(!e.contains(10u8)) by {
            if e.contains(10u8) {
                let k = choose|k: int| 0 <= k < e.len() && e[k] == 10u8;
                assert(t[k] as u8 == 10u8);
                assert(t[k] == '\n');
                assert(t.contains('\n'));
            }
        };
        lemma_read_without_newline(b, e);
        let m = e.map_values(|c: u8| c as char);
        assert(m =~= t) by {
            assert forall|k: int| 0 <= k < t.len() implies #[trigger] m[k] == t[k] by {
                assert(t[k] as u8 == e[k]);
                assert('\0' <= t[k] <= '\u{7f}');
            };
        };
        assert(write_lines(ts).drop_last() =~= b + e);
        assert(write_lines(ts).last() == 10u8);
        assert(rest.push(t) =~= ts);
    } else {
        assert(ts =~= Seq::<Seq<char>>::empty());
    }
}

impl ImageArrayState {
    /// The path of the directory's `ias.txt`.
    pub fn file_path(path_abs: &str) -> (r: String)
        ensures
            r@ == path_abs@ + "/ias.txt"@,
    {
        let mut r = path_abs.to_owned();
        push_str(&mut r, "/ias.txt");
        r
    }

    /// The state of the directory `path_abs` whose `ias.txt` holds `contents`. A last
    /// name that no newline ends is left out.
    pub fn load(path_abs: &str, contents: &[u8]) -> (r: Self)
        ensures
            r.path@ == path_abs@,
            names(r.textures@) == read_lines(contents@).0,
    {
        let mut textures: Vec<String> = Vec::new();
        let mut current = String::new();
        let mut i: usize = 0;
        while i < contents.len()
            invariant
                i <= contents@.len(),
                names(textures@) == read_lines(contents@.subrange(0, i as int)).0,
                current@ == read_lines(contents@.subrange(0, i as int)).1,
            decreases contents@.len() - i,
        {
            assert(contents@.subrange(0, i + 1).drop_last() == contents@.subrange(0, i as int));
            let c = contents[i];
            if c == 10u8 {
                let name = current.clone();
                textures.push(name);
                current = String::new();
                assert(names(textures@) =~= read_lines(contents@.subrange(0, i + 1)).0);
            } else {
                push_char(&mut current, c as char);
                assert(names(textures@) =~= read_lines(contents@.subrange(0, i + 1)).0);
            }
            i += 1;
        }
        assert(contents@.subrange(0, contents@.len() as int) == contents@);
        ImageArrayState { path: path_abs.to_owned(), textures }
    }

    /// The contents of `ias.txt` for this state.
    pub fn store(self) -> (r: Vec<u8>)
        ensures
            r@ == write_lines(names(self.textures@)),
    {
        let mut r: Vec<u8> = Vec::new();
        let mut i: usize = 0;
        while i < self.textures.len()
            invariant
                i <= self.textures@.len(),
                r@ == write_lines(names(self.textures@.subrange(0, i as int))),
            decreases self.textures@.len() - i,
        {
            let t = self.textures[i].as_str();
            r.extend_from_slice(t.as_bytes());
            r.push(10u8);
            assert(names(self.textures@.subrange(0, i + 1)).drop_last()
                =~= names(self.textures@.subrange(0, i as int)));
            i += 1;
        }
        assert(self.textures@.subrange(0, self.textures@.len() as int) == self.textures@);
        r
    }

    /// The files of the textures, in array order: `<path>/<texture>.png`.
    pub fn texture_paths(&self) -> (r: Vec<String>)
        ensures
            r@.len() == self.textures@.len(),
            forall|i: int| 0 <= i < r@.len() ==>
                #[trigger] r@[i]@ == self.path@ + "/"@ + self.textures@[i]@ + ".png"@,
    {
        let mut r: Vec<String> = Vec::new();
        let mut i: usize = 0;
        while i < self.textures.len()
            invariant
                i <= self.textures@.len(),
                r@.len() == i,
                forall|j: int| 0 <= j < i ==>
                    #[trigger] r@[j]@ == self.path@ + "/"@ + self.textures@[j]@ + ".png"@,
            decreases self.textures@.len() - i,
        {
            let mut p = self.path.clone();
            push_str(&mut p, "/");
            push_str(&mut p, self.textures[i].as_str());
            push_str(&mut p, ".png");
            r.push(p);
            i += 1;
        }
        r
    }
}

} // verus!
