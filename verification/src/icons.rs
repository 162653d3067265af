//! The user-configurable icon table and glyph resolution.

use vstd::prelude::*;
use vstd::string::*;

use crate::condition::{condition_key, condition_name, WeatherCondition};

verus! {

/// The icon table: an association from snake-case condition keys to glyphs.
/// The first pair with a matching key wins, so a table with unique keys
/// behaves exactly like the map it stands for.
#[derive(Debug, PartialEq, Eq, Clone)]
pub struct Icons(Vec<(String, String)>);

impl View for Icons {
    type V = Seq<(Seq<char>, Seq<char>)>;

    closed spec fn view(&self) -> Seq<(Seq<char>, Seq<char>)> {
        self.0@.map_values(|p: (String, String)| (p.0@, p.1@))
    }
}

/// The glyph bound to `key` in `table`: the second component of the first
/// pair whose first component is `key`.
pub open spec fn icon_lookup(table: Seq<(Seq<char>, Seq<char>)>, key: Seq<char>) -> Option<
    Seq<char>,
>
    decreases table.len(),
{
    if table.len() == 0 {
        None
    } else if table[0].0 == key {
        Some(table[0].1)
    } else {
        icon_lookup(table.skip(1), key)
    }
}

/// The glyph a condition resolves to: its table entry, or its own name as a
/// degenerate fallback so output is never empty.
pub open spec fn resolve_icon(c: WeatherCondition, table: Seq<(Seq<char>, Seq<char>)>) -> Seq<
    char,
> {
    match icon_lookup(table, condition_key(c)) {
        Some(glyph) => glyph,
        None => condition_name(c),
    }
}

impl Icons {
    /// Builds a table from key-glyph pairs.
    pub fn new(pairs: Vec<(String, String)>) -> (r: Icons)
        ensures
            r@ == pairs@.map_values(|p: (String, String)| (p.0@, p.1@)),
    {
        Icons(pairs)
    }

    /// The glyph bound to `condition`, if the table has one.
    pub fn get(&self, condition: &str) -> (r: Option<&String>)
        ensures
            match icon_lookup(self@, condition@) {
                Some(glyph) => r is Some && r->0@ == glyph,
                None => r is None,
            },
    {
        let key: String = condition.to_owned();
        let n = self.0.len();
        let mut i: usize = 0;
        proof {
            assert(self@.skip(0) =~= self@);
        }
        while i < n
            invariant
                0 <= i <= n,
                n == self.0.len(),
                key@ == condition@,
                self@ == self.0@.map_values(|p: (String, String)| (p.0@, p.1@)),
                icon_lookup(self@, condition@) == icon_lookup(
                    self@.skip(i as int),
                    condition@,
                ),
            decreases n - i,
        {
            let pair = &self.0[i];
            proof {
                assert(self@.skip(i as int)[0] == self@[i as int]);
                assert(self@.skip(i as int).skip(1) =~= self@.skip(i as int + 1));
            }
            if pair.0 == key {
                return Some(&pair.1);
            }
            i = i + 1;
        }
        proof {
            assert(self@.skip(n as int) =~= Seq::<(Seq<char>, Seq<char>)>::empty());
        }
        None
    }

    /// The glyph `condition` displays as: the table entry under the
    /// condition's snake-case key, or the condition's own name if the table
    /// has none.
    pub fn resolve(&self, condition: &WeatherCondition) -> (r: String)
        ensures
            r@ == resolve_icon(*condition, self@),
    {
        match self.get(condition.key()) {
            Some(glyph) => glyph.clone(),
            None => condition.name().to_owned(),
        }
    }
}

/// The default glyph table, one weather-font glyph per condition.
pub open spec fn default_icon_table() -> Seq<(Seq<char>, Seq<char>)> {
    seq![
        ("clear_sky"@, "\u{e30d}"@),
        ("few_clouds"@, "\u{e302}"@),
        ("clouds"@, "\u{e33d}"@),
        ("many_clouds"@, "\u{e312}"@),
        ("rain_sun"@, "\u{e309}"@),
        ("rain"@, "\u{e316}"@),
        ("heavy_rain"@, "\u{e318}"@),
        ("thunderstorm"@, "\u{e31d}"@),
        ("snow"@, "\u{e31a}"@),
        ("mist"@, "\u{e313}"@),
    ]
}

impl Default for Icons {
    /// The built-in table, handed to the formatter explicitly when the user
    /// configures no other.
    fn default() -> (r: Self)
        ensures
            r@ == default_icon_table(),
    {
        let mut pairs: Vec<(String, String)> = Vec::new();
        pairs.push((String::from_str("clear_sky"), String::from_str("\u{e30d}")));
        pairs.push((String::from_str("few_clouds"), String::from_str("\u{e302}")));
        pairs.push((String::from_str("clouds"), String::from_str("\u{e33d}")));
        pairs.push((String::from_str("many_clouds"), String::from_str("\u{e312}")));
        pairs.push((String::from_str("rain_sun"), String::from_str("\u{e309}")));
        pairs.push((String::from_str("rain"), String::from_str("\u{e316}")));
        pairs.push((String::from_str("heavy_rain"), String::from_str("\u{e318}")));
        pairs.push((String::from_str("thunderstorm"), String::from_str("\u{e31d}")));
        pairs.push((String::from_str("snow"), String::from_str("\u{e31a}")));
        pairs.push((String::from_str("mist"), String::from_str("\u{e313}")));
        let r = Icons(pairs);
        proof {
            assert(r@ =~= default_icon_table());
        }
        r
    }
}

/// A condition whose key the table does not bind resolves to the condition's
/// own name: the fallback glyph for a missing entry is the name itself.
pub proof fn lemma_icon_fallback(c: WeatherCondition, table: Seq<(Seq<char>, Seq<char>)>)
    requires
        icon_lookup(table, condition_key(c)) is None,
    ensures
        resolve_icon(c, table) == condition_name(c),
{
}

} // verus!
