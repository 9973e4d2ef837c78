//! The item catalogue and fuzzy matching of recognised reward text against it.
//!
//! Prices are floating-point values and stay with the caller: an item refers
//! to its price by the position of that price in the price list it was built
//! from.

use vstd::prelude::*;
use vstd::hash_map::StringHashMap;
use vstd::string::StringExecFns;
use vstd::utf8::encode_utf8;

use crate::error::DatabaseError;
use crate::text::{ascii_letters_of, normalize_string, after_first_word, chars_of, first_word, next_word, ends_with_chars, ends_with_seq, string_from_chars, without_blanks, without_blanks_seq};

verus! {

/// One item of the catalogue.
#[derive(Debug, Clone)]
pub struct Item {
    /// The item's name in the item data.
    pub name: String,
    /// The name under which the item shows up on the reward screen.
    pub drop_name: String,
    /// Ducat value of the item.
    pub ducats: usize,
    /// Position of the item's price in the price list, or `None` for an
    /// item that is worth nothing.
    pub price: Option<usize>,
}

/// Mathematical view of an `Item`.
pub struct ItemView {
    pub name: Seq<char>,
    pub drop_name: Seq<char>,
    pub ducats: usize,
    pub price: Option<usize>,
}

impl View for Item {
    type V = ItemView;

    open spec fn view(&self) -> ItemView {
        ItemView {
            name: self.name@,
            drop_name: self.drop_name@,
            ducats: self.ducats,
            price: self.price,
        }
    }
}

/// The views of a sequence of items.
pub open spec fn items_view(items: Seq<Item>) -> Seq<ItemView> {
    items.map_values(|item: Item| item@)
}

/// The item catalogue.
#[derive(Debug, Clone)]
pub struct Database {
    items: Vec<Item>,
}

impl View for Database {
    type V = Seq<ItemView>;

    closed spec fn view(&self) -> Seq<ItemView> {
        items_view(self.items@)
    }
}

/// The smallest of three numbers.
pub open spec fn min3(a: nat, b: nat, c: nat) -> nat {
    if a <= b && a <= c {
        a
    } else if b <= c {
        b
    } else {
        c
    }
}

/// Levenshtein distance: the least number of single-character insertions,
/// deletions and substitutions that turn `a` into `b`.
pub open spec fn edit_distance(a: Seq<char>, b: Seq<char>) -> nat
    decreases a.len() + b.len(),
{
    if a.len() == 0 {
        b.len()
    } else if b.len() == 0 {
        a.len()
    } else {
        min3(
            edit_distance(a.drop_last(), b) + 1,
            edit_distance(a, b.drop_last()) + 1,
            edit_distance(a.drop_last(), b.drop_last()) + if a.last() == b.last() {
                0nat
            } else {
                1nat
            },
        )
    }
}

/// A string is at distance zero from itself.
pub proof fn lemma_edit_distance_self(s: Seq<char>)
    ensures
        edit_distance(s, s) == 0,
    decreases s.len(),
{
    if s.len() > 0 {
        lemma_edit_distance_self(s.drop_last());
    }
}

/// `levenshtein::levenshtein`: the Levenshtein distance between the
/// character sequences of `a` and `b`, which the crate documents as the
/// minimum number of insertions, deletions and substitutions required to
/// change one string into the other.
#[verifier::external_body]
fn levenshtein_distance(a: &str, b: &str) -> (d: usize)
    ensures
        d == edit_distance(a@, b@),
{
    levenshtein::levenshtein(a, b)
}

/// The text an item is compared on: its drop name without spaces.
pub open spec fn match_key(item: ItemView) -> Seq<char> {
    without_blanks_seq(item.drop_name, false)
}

/// The recognised text as compared: without spaces and line feeds.
pub open spec fn needle_key(needle: Seq<char>) -> Seq<char> {
    without_blanks_seq(needle, true)
}

/// Whether the recognised text asks for a set.
pub open spec fn needle_is_set(needle: Seq<char>) -> bool {
    ends_with_seq(needle_key(needle), "Set"@)
}

/// Items named as sets only match text that asks for a set.
pub open spec fn eligible(item: ItemView, needle: Seq<char>) -> bool {
    needle_is_set(needle) || !ends_with_seq(item.name, "Set"@)
}

/// Distance between an item and the recognised text.
pub open spec fn match_distance(item: ItemView, needle: Seq<char>) -> nat {
    edit_distance(match_key(item), needle_key(needle))
}

/// The largest distance at which an item still matches: the given
/// threshold, or else a third of the byte length of the item's drop name.
pub open spec fn match_threshold(item: ItemView, threshold: Option<usize>) -> nat {
    match threshold {
        Some(t) => t as nat,
        None => ((encode_utf8(item.drop_name).len() as usize) / 3) as nat,
    }
}

/// Whether `item` matches the recognised text.
pub open spec fn is_candidate(item: ItemView, needle: Seq<char>, threshold: Option<usize>) -> bool {
    eligible(item, needle) && match_distance(item, needle) <= match_threshold(item, threshold)
}

/// Whether position `i` of `db` holds the best match: a candidate at the
/// least distance of all candidates, and the first such.
pub open spec fn is_best_match(
    db: Seq<ItemView>,
    needle: Seq<char>,
    threshold: Option<usize>,
    i: int,
) -> bool {
    &&& 0 <= i < db.len()
    &&& is_candidate(db[i], needle, threshold)
    &&& forall|j: int|
        0 <= j < db.len() && #[trigger] is_candidate(db[j], needle, threshold) ==> match_distance(
            db[i],
            needle,
        ) <= match_distance(db[j], needle)
    &&& forall|j: int|
        0 <= j < i && #[trigger] is_candidate(db[j], needle, threshold) ==> match_distance(
            db[i],
            needle,
        ) < match_distance(db[j], needle)
}

/// Whether no item of `db` matches the recognised text.
pub open spec fn no_match(db: Seq<ItemView>, needle: Seq<char>, threshold: Option<usize>) -> bool {
    forall|j: int| 0 <= j < db.len() ==> !#[trigger] is_candidate(db[j], needle, threshold)
}

impl Database {
    /// The items of the catalogue, in order.
    pub fn items(&self) -> (r: &Vec<Item>)
        ensures
            items_view(r@) == self@,
    {
        &self.items
    }

    /// Number of items.
    pub fn len(&self) -> (n: usize)
        ensures
            n == self@.len(),
    {
        self.items.len()
    }

    /// Position of the item that best matches the recognised text `needle`:
    /// among the items whose drop name, without spaces, lies within the
    /// threshold of the text without spaces and line feeds, the one at the
    /// least distance, the first of several. Items whose name ends in "Set"
    /// only take part when the text ends in "Set".
    pub fn find_item_index(&self, needle: &str, threshold: Option<usize>) -> (r: Option<usize>)
        ensures
            match r {
                None => no_match(self@, needle@, threshold),
                Some(i) => is_best_match(self@, needle@, threshold, i as int),
            },
    {
        let needle_chars = chars_of(needle);
        let key_chars = without_blanks(&needle_chars, true);
        let key = string_from_chars(&key_chars);
        let set_suffix = chars_of("Set");
        let asks_set = ends_with_chars(&key_chars, &set_suffix);
        let ghost db = self@;
        let ghost nd = needle@;
        let mut best: Option<usize> = None;
        let mut best_distance: usize = 0;
        let mut i: usize = 0;
        while i < self.items.len()
            invariant
                i <= self.items.len(),
                db == self@,
                db.len() == self.items.len(),
                nd == needle@,
                key@ == needle_key(nd),
                set_suffix@ == "Set"@,
                asks_set == needle_is_set(nd),
                match best {
                    None => forall|j: int|
                        0 <= j < i ==> !#[trigger] is_candidate(db[j], nd, threshold),
                    Some(b) => {
                        &&& b < i
                        &&& is_candidate(db[b as int], nd, threshold)
                        &&& best_distance == match_distance(db[b as int], nd)
                        &&& forall|j: int|
                            0 <= j < i && #[trigger] is_candidate(db[j], nd, threshold)
                                ==> best_distance <= match_distance(db[j], nd)
                        &&& forall|j: int|
                            0 <= j < b && #[trigger] is_candidate(db[j], nd, threshold)
                                ==> best_distance < match_distance(db[j], nd)
                    },
                },
            decreases self.items.len() - i,
        {
            let item = &self.items[i];
            assert(db[i as int] == item@);
            let name_chars = chars_of(item.name.as_str());
            let is_set_item = ends_with_chars(&name_chars, &set_suffix);
            if asks_set || !is_set_item {
                let drop_chars = chars_of(item.drop_name.as_str());
                let item_key_chars = without_blanks(&drop_chars, false);
                let item_key = string_from_chars(&item_key_chars);
                let distance = levenshtein_distance(item_key.as_str(), key.as_str());
                let limit = match threshold {
                    Some(t) => t,
                    None => item.drop_name.as_str().len() / 3,
                };
                assert(distance == match_distance(db[i as int], nd));
                assert(limit == match_threshold(db[i as int], threshold));
                assert(is_candidate(db[i as int], nd, threshold) == (distance <= limit));
                if distance <= limit {
                    match best {
                        None => {
                            best = Some(i);
                            best_distance = distance;
                        },
                        Some(_) => {
                            if distance < best_distance {
                                best = Some(i);
                                best_distance = distance;
                            }
                        },
                    }
                }
            } else {
                assert(!is_candidate(db[i as int], nd, threshold));
            }
            i = i + 1;
        }
        best
    }

    /// The item that best matches the recognised text `needle` (see
    /// `find_item_index`), or `None` when no item lies within the threshold.
    pub fn find_item(&self, needle: &str, threshold: Option<usize>) -> (r: Option<&Item>)
        ensures
            r is None <==> no_match(self@, needle@, threshold),
            r matches Some(item) ==> exists|i: int|
                is_best_match(self@, needle@, threshold, i) && #[trigger] self@[i] == item@,
    {
        match self.find_item_index(needle, threshold) {
            Some(i) => {
                let item = &self.items[i];
                assert(self@[i as int] == item@);
                Some(item)
            },
            None => None,
        }
    }

    /// The first item named exactly `needle`; `ItemNotFound` when none is.
    pub fn find_item_exact(&self, needle: &str) -> (r: Result<&Item, DatabaseError>)
        ensures
            match r {
                Ok(item) => exists|i: int|
                    0 <= i < self@.len() && #[trigger] self@[i] == item@ && item.name@ == needle@
                        && forall|j: int| 0 <= j < i ==> self@[j].name != needle@,
                Err(e) => {
                    &&& forall|j: int| 0 <= j < self@.len() ==> self@[j].name != needle@
                    &&& e matches DatabaseError::ItemNotFound(n) && n@ == needle@
                },
            },
    {
        let wanted = needle.to_owned();
        let mut i: usize = 0;
        while i < self.items.len()
            invariant
                i <= self.items.len(),
                self@.len() == self.items.len(),
                wanted@ == needle@,
                forall|j: int| 0 <= j < i ==> self@[j].name != needle@,
            decreases self.items.len() - i,
        {
            let item = &self.items[i];
            assert(self@[i as int] == item@);
            if item.name == wanted {
                return Ok(item);
            }
            i = i + 1;
        }
        Err(DatabaseError::ItemNotFound(wanted))
    }
}


/// Kinds of equipment the catalogue tells apart.
#[derive(Debug, Clone, Copy, PartialEq, Eq, Structural)]
pub enum EquipmentType {
    Warframes,
    Archwing,
    Other,
}

/// A part of a piece of equipment, with its ducat value.
#[derive(Debug, Clone)]
pub struct PartEntry {
    pub name: String,
    pub ducats: usize,
}

/// A piece of equipment of the item data and its parts.
#[derive(Debug, Clone)]
pub struct EquipmentEntry {
    pub name: String,
    pub item_type: EquipmentType,
    pub parts: Vec<PartEntry>,
}

/// Map from price names to their position in the price list; a name listed
/// twice maps to its last position.
pub open spec fn price_map(names: Seq<String>) -> Map<Seq<char>, usize>
    decreases names.len(),
{
    if names.len() == 0 {
        Map::empty()
    } else {
        price_map(names.drop_last()).insert(names.last()@, (names.len() - 1) as usize)
    }
}

/// The price of a part: listed under its own name, or else under its name
/// followed by " Blueprint".
pub open spec fn part_price(name: Seq<char>, prices: Map<Seq<char>, usize>) -> Option<usize> {
    if prices.contains_key(name) {
        Some(prices[name])
    } else if prices.contains_key(name + " Blueprint"@) {
        Some(prices[name + " Blueprint"@])
    } else {
        None
    }
}

/// Names of parts that drop as blueprints for warframes and archwings.
pub open spec fn is_frame_part(name: Seq<char>) -> bool {
    ||| ends_with_seq(name, "Systems"@)
    ||| ends_with_seq(name, "Neuroptics"@)
    ||| ends_with_seq(name, "Chassis"@)
    ||| ends_with_seq(name, "Harness"@)
    ||| ends_with_seq(name, "Wings"@)
}

/// The name under which a part shows up on the reward screen: warframe and
/// archwing parts (systems, neuroptics, chassis, harness, wings) drop as
/// blueprints; every other part drops under its own name.
pub open spec fn drop_name_of(name: Seq<char>, kind: EquipmentType) -> Seq<char> {
    if (kind == EquipmentType::Warframes || kind == EquipmentType::Archwing) && is_frame_part(name)
        && !ends_with_seq(name, "Blueprint"@) {
        name + " Blueprint"@
    } else {
        name
    }
}

/// The items made from the priced parts of one piece of equipment, in order;
/// parts without a price are left out.
pub open spec fn part_items(
    parts: Seq<PartEntry>,
    kind: EquipmentType,
    prices: Map<Seq<char>, usize>,
) -> Seq<ItemView>
    decreases parts.len(),
{
    if parts.len() == 0 {
        Seq::empty()
    } else {
        let rest = part_items(parts.drop_last(), kind, prices);
        let p = parts.last();
        match part_price(p.name@, prices) {
            Some(k) => rest.push(
                ItemView {
                    name: p.name@,
                    drop_name: drop_name_of(p.name@, kind),
                    ducats: p.ducats,
                    price: Some(k),
                },
            ),
            None => rest,
        }
    }
}

/// The set item of a piece of equipment, when the set has a price.
pub open spec fn set_item(equipment: Seq<char>, prices: Map<Seq<char>, usize>) -> Seq<ItemView> {
    let set_name = equipment + " Set"@;
    if prices.contains_key(set_name) {
        seq![ItemView { name: set_name, drop_name: set_name, ducats: 0, price: Some(prices[set_name]) }]
    } else {
        Seq::empty()
    }
}

/// The items of all equipment: for each piece in order, its priced parts
/// followed by its set.
pub open spec fn equipment_items(entries: Seq<EquipmentEntry>, prices: Map<Seq<char>, usize>) -> Seq<
    ItemView,
>
    decreases entries.len(),
{
    if entries.len() == 0 {
        Seq::empty()
    } else {
        let e = entries.last();
        equipment_items(entries.drop_last(), prices) + part_items(e.parts@, e.item_type, prices)
            + set_item(e.name@, prices)
    }
}

/// Items without value: listed under their own name, no ducats, no price.
pub open spec fn ignored_items(names: Seq<String>) -> Seq<ItemView> {
    names.map_values(|n: String| ItemView { name: n@, drop_name: n@, ducats: 0, price: None })
}

/// The whole catalogue: equipment items, then the ignored items.
pub open spec fn catalog(
    entries: Seq<EquipmentEntry>,
    ignored: Seq<String>,
    price_names: Seq<String>,
) -> Seq<ItemView> {
    equipment_items(entries, price_map(price_names)) + ignored_items(ignored)
}

/// Builds the map from price names to their position in the price list.
pub fn price_table(price_names: &Vec<String>) -> (m: StringHashMap<usize>)
    ensures
        m@ == price_map(price_names@),
{
    let mut m: StringHashMap<usize> = StringHashMap::new();
    let mut i: usize = 0;
    while i < price_names.len()
        invariant
            i <= price_names.len(),
            m@ == price_map(price_names@.take(i as int)),
        decreases price_names.len() - i,
    {
        assert(price_names@.take(i + 1).drop_last() =~= price_names@.take(i as int));
        m.insert(price_names[i].clone(), i);
        i = i + 1;
    }
    assert(price_names@.take(price_names.len() as int) =~= price_names@);
    m
}

/// A name ending in one of the frame-part words does not end in
/// "Blueprint": the last letters differ.
proof fn lemma_frame_part_is_not_blueprint(name: Seq<char>)
    requires
        is_frame_part(name),
    ensures
        !ends_with_seq(name, "Blueprint"@),
{
    reveal_strlit("Systems");
    reveal_strlit("Neuroptics");
    reveal_strlit("Chassis");
    reveal_strlit("Harness");
    reveal_strlit("Wings");
    reveal_strlit("Blueprint");
    let n = name.len() as int;
    if ends_with_seq(name, "Blueprint"@) {
        assert(name.subrange(n - 9, n)[8] == name[n - 1]);
        assert(name[n - 1] == 't');
        if ends_with_seq(name, "Systems"@) {
            assert(name.subrange(n - 7, n)[6] == name[n - 1]);
        } else if ends_with_seq(name, "Neuroptics"@) {
            assert(name.subrange(n - 10, n)[9] == name[n - 1]);
        } else if ends_with_seq(name, "Chassis"@) {
            assert(name.subrange(n - 7, n)[6] == name[n - 1]);
        } else if ends_with_seq(name, "Harness"@) {
            assert(name.subrange(n - 7, n)[6] == name[n - 1]);
        } else {
            assert(name.subrange(n - 5, n)[4] == name[n - 1]);
        }
    }
}

/// Warframe and archwing parts named after systems, neuroptics, chassis,
/// harness or wings drop as their blueprints, for each kind and each of these
/// words alike; parts of other equipment, and parts named otherwise, drop
/// under their own name.
pub proof fn law_frame_parts_drop_as_blueprints(name: Seq<char>, kind: EquipmentType)
    ensures
        (kind == EquipmentType::Warframes || kind == EquipmentType::Archwing) ==> {
            &&& ends_with_seq(name, "Systems"@) ==> drop_name_of(name, kind) == name
                + " Blueprint"@
            &&& ends_with_seq(name, "Neuroptics"@) ==> drop_name_of(name, kind) == name
                + " Blueprint"@
            &&& ends_with_seq(name, "Chassis"@) ==> drop_name_of(name, kind) == name
                + " Blueprint"@
            &&& ends_with_seq(name, "Harness"@) ==> drop_name_of(name, kind) == name
                + " Blueprint"@
            &&& ends_with_seq(name, "Wings"@) ==> drop_name_of(name, kind) == name
                + " Blueprint"@
        },
        kind == EquipmentType::Other ==> drop_name_of(name, kind) == name,
        !ends_with_seq(name, "Systems"@) && !ends_with_seq(name, "Neuroptics"@)
            && !ends_with_seq(name, "Chassis"@) && !ends_with_seq(name, "Harness"@)
            && !ends_with_seq(name, "Wings"@) ==> drop_name_of(name, kind) == name,
{
    if is_frame_part(name) {
        lemma_frame_part_is_not_blueprint(name);
    }
}

/// The reward-screen name of a part (see `drop_name_of`).
pub fn drop_name_for(name: &str, kind: EquipmentType) -> (r: String)
    ensures
        r@ == drop_name_of(name@, kind),
        (kind == EquipmentType::Warframes || kind == EquipmentType::Archwing) && (ends_with_seq(
            name@,
            "Systems"@,
        ) || ends_with_seq(name@, "Neuroptics"@) || ends_with_seq(name@, "Chassis"@)
            || ends_with_seq(name@, "Harness"@) || ends_with_seq(name@, "Wings"@)) ==> r@ == name@
            + " Blueprint"@,
        kind == EquipmentType::Other ==> r@ == name@,
{
    proof {
        law_frame_parts_drop_as_blueprints(name@, kind);
    }
    let chars = chars_of(name);
    let part = ends_with_chars(&chars, &chars_of("Systems")) || ends_with_chars(
        &chars,
        &chars_of("Neuroptics"),
    ) || ends_with_chars(&chars, &chars_of("Chassis")) || ends_with_chars(
        &chars,
        &chars_of("Harness"),
    ) || ends_with_chars(&chars, &chars_of("Wings"));
    let framed = kind == EquipmentType::Warframes || kind == EquipmentType::Archwing;
    if framed && part && !ends_with_chars(&chars, &chars_of("Blueprint")) {
        name.to_owned().concat(" Blueprint")
    } else {
        name.to_owned()
    }
}

/// Looks up the price of a part (see `part_price`).
pub fn lookup_part_price(name: &str, prices: &StringHashMap<usize>) -> (r: Option<usize>)
    ensures
        r == part_price(name@, prices@),
{
    match prices.get(name) {
        Some(k) => Some(*k),
        None => {
            let with_blueprint = name.to_owned().concat(" Blueprint");
            match prices.get(with_blueprint.as_str()) {
                Some(k) => Some(*k),
                None => None,
            }
        },
    }
}

impl Database {
    /// Builds the catalogue from the equipment of the item data, the names
    /// of the ignored items and the names of the price list (see `catalog`).
    pub fn from_catalog(
        equipment: &Vec<EquipmentEntry>,
        ignored: &Vec<String>,
        price_names: &Vec<String>,
    ) -> (db: Database)
        ensures
            db@ == catalog(equipment@, ignored@, price_names@),
    {
        let prices = price_table(price_names);
        let ghost pm = price_map(price_names@);
        let mut items: Vec<Item> = Vec::new();
        let mut e: usize = 0;
        while e < equipment.len()
            invariant
                e <= equipment.len(),
                prices@ == pm,
                items_view(items@) == equipment_items(equipment@.take(e as int), pm),
            decreases equipment.len() - e,
        {
            let entry = &equipment[e];
            let ghost before = items_view(items@);
            let mut p: usize = 0;
            while p < entry.parts.len()
                invariant
                    p <= entry.parts.len(),
                    entry == equipment@[e as int],
                    prices@ == pm,
                    items_view(items@) == before + part_items(
                        entry.parts@.take(p as int),
                        entry.item_type,
                        pm,
                    ),
                decreases entry.parts.len() - p,
            {
                let part = &entry.parts[p];
                assert(entry.parts@.take(p + 1).drop_last() =~= entry.parts@.take(p as int));
                assert(entry.parts@.take(p + 1).last() == *part);
                match lookup_part_price(part.name.as_str(), &prices) {
                    Some(k) => {
                        let item = Item {
                            name: part.name.clone(),
                            drop_name: drop_name_for(part.name.as_str(), entry.item_type),
                            ducats: part.ducats,
                            price: Some(k),
                        };
                        let ghost old_items = items@;
                        let ghost iv = item@;
                        items.push(item);
                        assert(items_view(items@) =~= items_view(old_items).push(iv));
                        assert(part_items(entry.parts@.take(p + 1), entry.item_type, pm)
                            == part_items(entry.parts@.take(p as int), entry.item_type, pm).push(iv));
                        assert(items_view(items@) =~= before + part_items(
                            entry.parts@.take(p + 1),
                            entry.item_type,
                            pm,
                        ));
                    },
                    None => {},
                }
                p = p + 1;
            }
            assert(entry.parts@.take(entry.parts.len() as int) =~= entry.parts@);
            let set_name = entry.name.clone().concat(" Set");
            match prices.get(set_name.as_str()) {
                Some(k) => {
                    let item = Item {
                        name: set_name.clone(),
                        drop_name: set_name,
                        ducats: 0,
                        price: Some(*k),
                    };
                    items.push(item);
                },
                None => {},
            }
            assert(equipment@.take(e + 1).drop_last() =~= equipment@.take(e as int));
            assert(equipment@.take(e + 1).last() == *entry);
            assert(items_view(items@) =~= equipment_items(equipment@.take(e + 1), pm));
            e = e + 1;
        }
        assert(equipment@.take(equipment.len() as int) =~= equipment@);
        let ghost eq_items = items_view(items@);
        let mut g: usize = 0;
        while g < ignored.len()
            invariant
                g <= ignored.len(),
                items_view(items@) == eq_items + ignored_items(ignored@.take(g as int)),
            decreases ignored.len() - g,
        {
            let name = &ignored[g];
            let item = Item { name: name.clone(), drop_name: name.clone(), ducats: 0, price: None };
            let ghost old_items = items@;
            let ghost iv = item@;
            items.push(item);
            assert(items_view(items@) =~= items_view(old_items).push(iv));
            assert(ignored_items(ignored@.take(g + 1)) =~= ignored_items(ignored@.take(g as int)).push(iv));
            assert(items_view(items@) =~= eq_items + ignored_items(ignored@.take(g + 1)));
            g = g + 1;
        }
        assert(ignored@.take(ignored.len() as int) =~= ignored@);
        Database { items }
    }
}


/// The name of the set an item belongs to: its first two
/// whitespace-separated words followed by " Set"; `None` when the name has
/// fewer than two words.
pub open spec fn set_query_of(item_name: Seq<char>) -> Option<Seq<char>> {
    let w1 = first_word(item_name);
    let w2 = first_word(after_first_word(item_name));
    if w1.len() == 0 || w2.len() == 0 {
        None
    } else {
        Some(w1 + seq![' '] + w2 + " Set"@)
    }
}

/// Computes `set_query_of`.
pub fn set_query_for(item_name: &str) -> (r: Option<String>)
    ensures
        match r {
            None => set_query_of(item_name@) is None,
            Some(q) => set_query_of(item_name@) == Some(q@),
        },
{
    let v = chars_of(item_name);
    let n = v.len();
    assert(v@.subrange(0, n as int) =~= v@);
    let (s1, e1) = next_word(&v, 0);
    if s1 == e1 {
        assert(first_word(item_name@).len() == 0);
        return None;
    }
    let (s2, e2) = next_word(&v, e1);
    if s2 == e2 {
        assert(first_word(after_first_word(item_name@)).len() == 0);
        return None;
    }
    let mut out: Vec<char> = Vec::new();
    let mut k: usize = s1;
    while k < e1
        invariant
            s1 <= k <= e1 <= n,
            n == v.len(),
            out@ == v@.subrange(s1 as int, k as int),
        decreases e1 - k,
    {
        out.push(v[k]);
        k = k + 1;
        assert(out@ =~= v@.subrange(s1 as int, k as int));
    }
    out.push(' ');
    let ghost head = out@;
    let mut k: usize = s2;
    while k < e2
        invariant
            s2 <= k <= e2 <= n,
            n == v.len(),
            out@ == head + v@.subrange(s2 as int, k as int),
        decreases e2 - k,
    {
        out.push(v[k]);
        k = k + 1;
        assert(out@ =~= head + v@.subrange(s2 as int, k as int));
    }
    let query = string_from_chars(&out).concat(" Set");
    assert(head =~= v@.subrange(s1 as int, e1 as int) + seq![' ']);
    Some(query)
}

impl Database {
    /// The set item matching the set an item belongs to (see
    /// `set_query_of`), looked up with the default threshold.
    pub fn try_find_set(&self, item_name: &str) -> (r: Option<&Item>)
        ensures
            set_query_of(item_name@) is None ==> r is None,
            set_query_of(item_name@) matches Some(q) ==> {
                &&& r is None <==> no_match(self@, q, None)
                &&& r matches Some(item) ==> exists|i: int|
                    is_best_match(self@, q, None, i) && #[trigger] self@[i] == item@
            },
    {
        match set_query_for(item_name) {
            Some(query) => self.find_item(query.as_str(), None),
            None => None,
        }
    }
}


impl Database {
    /// Matches each recognised reward text, reduced to its ASCII letters,
    /// against the catalogue with the default threshold.
    pub fn identify_items(&self, texts: &Vec<String>) -> (r: Vec<Option<usize>>)
        ensures
            r@.len() == texts@.len(),
            forall|k: int|
                0 <= k < texts@.len() ==> match #[trigger] r@[k] {
                    None => no_match(self@, ascii_letters_of(texts@[k]@), None),
                    Some(i) => is_best_match(self@, ascii_letters_of(texts@[k]@), None, i as int),
                },
    {
        let mut out: Vec<Option<usize>> = Vec::new();
        let mut k: usize = 0;
        while k < texts.len()
            invariant
                k <= texts.len(),
                out@.len() == k,
                forall|q: int|
                    0 <= q < k ==> match #[trigger] out@[q] {
                        None => no_match(self@, ascii_letters_of(texts@[q]@), None),
                        Some(i) => is_best_match(
                            self@,
                            ascii_letters_of(texts@[q]@),
                            None,
                            i as int,
                        ),
                    },
            decreases texts.len() - k,
        {
            let text = normalize_string(texts[k].as_str());
            out.push(self.find_item_index(text.as_str(), None));
            k = k + 1;
        }
        out
    }
}


/// The best match is unique: at most one position holds it.
pub proof fn law_best_match_unique(
    db: Seq<ItemView>,
    needle: Seq<char>,
    threshold: Option<usize>,
    i: int,
    j: int,
)
    requires
        is_best_match(db, needle, threshold, i),
        is_best_match(db, needle, threshold, j),
    ensures
        i == j,
{
    if i < j {
        assert(is_candidate(db[i], needle, threshold));
    } else if j < i {
        assert(is_candidate(db[j], needle, threshold));
    }
}

/// Text that equals, blanks aside, the drop name of an item that may match
/// it is always matched, and by an item at distance zero.
pub proof fn law_exact_text_is_found(
    db: Seq<ItemView>,
    needle: Seq<char>,
    threshold: Option<usize>,
    k: int,
)
    requires
        0 <= k < db.len(),
        eligible(db[k], needle),
        match_key(db[k]) == needle_key(needle),
    ensures
        !no_match(db, needle, threshold),
        forall|i: int|
            #[trigger] is_best_match(db, needle, threshold, i) ==> match_distance(db[i], needle)
                == 0,
{
    lemma_edit_distance_self(needle_key(needle));
    assert(match_distance(db[k], needle) == 0);
    assert(is_candidate(db[k], needle, threshold));
    assert forall|i: int| #[trigger]
        is_best_match(db, needle, threshold, i) implies match_distance(db[i], needle) == 0 by {
        assert(is_candidate(db[k], needle, threshold));
    }
}

/// In the price table a name maps to its last position in the price list.
pub proof fn law_last_price_wins(names: Seq<String>, j: int)
    requires
        0 <= j < names.len(),
        forall|k: int| j < k < names.len() ==> #[trigger] names[k]@ != names[j]@,
    ensures
        price_map(names).contains_key(names[j]@),
        price_map(names)[names[j]@] == j as usize,
    decreases names.len(),
{
    if j < names.len() - 1 {
        assert forall|k: int| j < k < names.drop_last().len() implies #[trigger] names.drop_last()[k]@
            != names.drop_last()[j]@ by {
            assert(names.drop_last()[k] == names[k]);
        }
        law_last_price_wins(names.drop_last(), j);
        assert(names.last()@ != names[j]@);
    }
}


impl Database {
    /// Positions of the items named exactly as the given reward names, in
    /// order (each as `find_item_exact` finds it); `ItemNotFound` for the
    /// first name no item carries.
    pub fn reward_items(&self, names: &Vec<String>) -> (r: Result<Vec<usize>, DatabaseError>)
        ensures
            match r {
                Ok(found) => {
                    &&& found@.len() == names@.len()
                    &&& forall|k: int|
                        0 <= k < names@.len() ==> {
                            &&& #[trigger] found@[k] < self@.len()
                            &&& self@[found@[k] as int].name == names@[k]@
                            &&& forall|j: int|
                                0 <= j < found@[k] ==> self@[j].name != names@[k]@
                        }
                },
                Err(e) => exists|k: int|
                    0 <= k < names@.len() && (forall|j: int|
                        0 <= j < self@.len() ==> self@[j].name != #[trigger] names@[k]@) && (e
                        matches DatabaseError::ItemNotFound(n) && n@ == names@[k]@),
            },
    {
        let mut found: Vec<usize> = Vec::new();
        let mut k: usize = 0;
        while k < names.len()
            invariant
                k <= names.len(),
                found@.len() == k,
                forall|q: int|
                    0 <= q < k ==> {
                        &&& #[trigger] found@[q] < self@.len()
                        &&& self@[found@[q] as int].name == names@[q]@
                        &&& forall|j: int| 0 <= j < found@[q] ==> self@[j].name != names@[q]@
                    },
            decreases names.len() - k,
        {
            let wanted = names[k].as_str();
            let mut i: usize = 0;
            let mut hit: Option<usize> = None;
            while i < self.items.len()
                invariant
                    i <= self.items.len(),
                    self@.len() == self.items.len(),
                    wanted@ == names@[k as int]@,
                    hit is None ==> forall|j: int| 0 <= j < i ==> self@[j].name != wanted@,
                    hit matches Some(h) ==> h < self@.len() && self@[h as int].name == wanted@
                        && forall|j: int| 0 <= j < h ==> self@[j].name != wanted@,
                decreases self.items.len() - i,
            {
                if hit.is_none() {
                    assert(self@[i as int] == self.items@[i as int]@);
                    if self.items[i].name == wanted.to_owned() {
                        hit = Some(i);
                    }
                }
                i = i + 1;
            }
            match hit {
                Some(h) => found.push(h),
                None => {
                    return Err(DatabaseError::ItemNotFound(wanted.to_owned()));
                },
            }
            k = k + 1;
        }
        Ok(found)
    }
}


/// The text looked up for a set asks for a set, so set items take part in
/// the lookup.
pub proof fn law_set_query_asks_for_set(item_name: Seq<char>)
    requires
        set_query_of(item_name) is Some,
    ensures
        needle_is_set(set_query_of(item_name)->0),
{
    let w1 = first_word(item_name);
    let w2 = first_word(after_first_word(item_name));
    let head = w1 + seq![' '] + w2;
    let pred = |c: char| !crate::text::is_blank(c, true);
    reveal_strlit(" Set");
    reveal_strlit("Set");
    Seq::filter_distributes_over_add(head, " Set"@, pred);
    assert(" Set"@ =~= seq![' ', 'S', 'e', 't']);
    assert(seq![' ', 'S', 'e', 't'].filter(pred) =~= seq!['S', 'e', 't']) by {
        reveal_with_fuel(Seq::filter, 5);
        assert(seq![' ', 'S', 'e', 't'].drop_last() =~= seq![' ', 'S', 'e']);
        assert(seq![' ', 'S', 'e'].drop_last() =~= seq![' ', 'S']);
        assert(seq![' ', 'S'].drop_last() =~= seq![' ']);
        assert(seq![' '].drop_last() =~= Seq::<char>::empty());
    }
    assert("Set"@ =~= seq!['S', 'e', 't']);
    let key = head.filter(pred) + "Set"@;
    assert(key.subrange(key.len() - 3, key.len() as int) =~= "Set"@);
}

} // verus!
