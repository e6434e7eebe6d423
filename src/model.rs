use vstd::prelude::*;
use vstd::arithmetic::power::pow;

verus! {

/// What a list of strings holds, as character sequences.
pub open spec fn strings_view(v: Seq<String>) -> Seq<Seq<char>> {
    v.map_values(|s: String| s@)
}

/// What an optional list of strings holds.
pub open spec fn opt_strings_view(o: Option<Vec<String>>) -> Option<Seq<Seq<char>>> {
    match o {
        Some(v) => Some(strings_view(v@)),
        None => None,
    }
}

/// The abstract content of one persisted movie row.
pub struct MovieView {
    pub id: u128,
    pub title: Seq<char>,
    pub description: Seq<char>,
    pub genre: Option<Seq<Seq<char>>>,
    pub actors: Option<Seq<Seq<char>>>,
}

/// A persisted movie. The identifier is the 128-bit value of the row's UUID; the
/// lists may be absent at the storage level.
pub struct Movies {
    pub id: u128,
    pub title: String,
    pub description: String,
    pub genre: Option<Vec<String>>,
    pub actors: Option<Vec<String>>,
}

impl View for Movies {
    type V = MovieView;

    open spec fn view(&self) -> MovieView {
        MovieView {
            id: self.id,
            title: self.title@,
            description: self.description@,
            genre: opt_strings_view(self.genre),
            actors: opt_strings_view(self.actors),
        }
    }
}

/// Copies a list of strings, element by element.
pub fn copy_strings(v: &Vec<String>) -> (r: Vec<String>)
    ensures
        r@ == v@,
{
    let mut r: Vec<String> = Vec::new();
    let mut i: usize = 0;
    while i < v.len()
        invariant
            i <= v.len(),
            r@ == v@.subrange(0, i as int),
        decreases v.len() - i,
    {
        r.push(v[i].clone());
        i = i + 1;
    }
    assert(r@ =~= v@);
    r
}

/// Copies an optional list of strings.
pub fn copy_opt_strings(o: &Option<Vec<String>>) -> (r: Option<Vec<String>>)
    ensures
        opt_strings_view(r) == opt_strings_view(*o),
{
    match o {
        Some(v) => Some(copy_strings(v)),
        None => None,
    }
}

impl Movies {
    /// A field-by-field copy of the row.
    pub fn duplicate(&self) -> (r: Movies)
        ensures
            r@ == self@,
    {
        Movies {
            id: self.id,
            title: self.title.clone(),
            description: self.description.clone(),
            genre: copy_opt_strings(&self.genre),
            actors: copy_opt_strings(&self.actors),
        }
    }
}

/// The lower-case hexadecimal digit for a value below 16.
pub open spec fn hex_char(n: int) -> char {
    seq!['0', '1', '2', '3', '4', '5', '6', '7', '8', '9', 'a', 'b', 'c', 'd', 'e', 'f'][n]
}

/// The k-th of the 32 hexadecimal digits of an identifier, most significant first.
pub open spec fn nibble(id: u128, k: int) -> int {
    (id as int / pow(16, (31 - k) as nat)) % 16
}

/// The digits `from .. to` of an identifier.
pub open spec fn hex_digits(id: u128, from: int, to: int) -> Seq<char> {
    Seq::new((to - from) as nat, |j: int| hex_char(nibble(id, from + j)))
}

/// The canonical text of an identifier: its 32 digits in lower case, grouped 8-4-4-4-12
/// and joined by hyphens.
pub open spec fn uuid_text(id: u128) -> Seq<char> {
    hex_digits(id, 0, 8) + seq!['-'] + hex_digits(id, 8, 12) + seq!['-'] + hex_digits(id, 12, 16)
        + seq!['-'] + hex_digits(id, 16, 20) + seq!['-'] + hex_digits(id, 20, 32)
}

/// Relies on `uuid::Uuid::from_u128`, which takes the value's bytes in big-endian order,
/// and on `Uuid`'s `Display`, which writes the lower-case hyphenated form.
#[verifier::external_body]
pub(crate) fn id_text(id: u128) -> (r: String)
    ensures
        r@ == uuid_text(id),
{
    uuid::Uuid::from_u128(id).to_string()
}

/// The text that reports a missing row.
pub open spec fn not_found_text(id: u128) -> Seq<char> {
    "Movie with ID: "@ + uuid_text(id) + " not found"@
}

/// Builds the message that reports that no row has the given identifier.
pub fn not_found_message(id: u128) -> (r: String)
    ensures
        r@ == not_found_text(id),
{
    let mut s = String::from_str("Movie with ID: ");
    let t = id_text(id);
    s.append(t.as_str());
    s.append(" not found");
    s
}

} // verus!
