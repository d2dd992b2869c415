//! What the caller asks for: the source, the output name, and the metadata
//! that the tag writer is to record.

use crate::command::Invocation;
use crate::command::InvocationView;
use crate::text::clone_strings;
use crate::text::decimal;
use crate::text::decimal_string;
use crate::text::lemma_texts_push;
use crate::text::texts;
use vstd::prelude::*;

verus! {

/// The request of one run.
#[derive(Clone, Debug, Default, PartialEq, Eq)]
pub struct Cli {
    /// The source: a URL or the path of a local file.
    pub url: String,
    /// The file name, with its extension, under which the result is stored.
    pub output_name: String,
    /// The transfer rate limit; the configured default applies without it.
    pub speed: Option<u64>,
    /// Store the result at `output_name` itself, taken as a path.
    pub override_output: bool,
    /// Transcode what was acquired before it is tagged.
    pub perform_reencoding: bool,
    pub tags: Option<Vec<String>>,
    pub artists: Option<Vec<String>>,
    pub producers: Option<Vec<String>>,
    pub genre: Option<Vec<String>>,
    pub writers: Option<Vec<String>>,
    pub title: Option<String>,
    pub year: Option<u64>,
    pub season: Option<u64>,
    pub episode: Option<u64>,
    pub series_name: Option<String>,
    pub subtitle: Option<String>,
}

/// The values of a field that holds a list.
pub open spec fn list_values(field: Option<Vec<String>>) -> Seq<Seq<char>> {
    match field {
        Some(list) => texts(list@),
        None => Seq::empty(),
    }
}

/// The values of a field that holds one text.
pub open spec fn text_values(field: Option<String>) -> Seq<Seq<char>> {
    match field {
        Some(text) => seq![text@],
        None => Seq::empty(),
    }
}

/// The values of a field that holds one number, written in decimal.
pub open spec fn number_values(field: Option<u64>) -> Seq<Seq<char>> {
    match field {
        Some(n) => seq![decimal(n as nat)],
        None => Seq::empty(),
    }
}

/// The arguments that a field contributes: its flag, then its values. A
/// field without values contributes nothing, not even the flag.
pub open spec fn flag_group(flag: Seq<char>, values: Seq<Seq<char>>) -> Seq<Seq<char>> {
    if values.len() == 0 {
        Seq::empty()
    } else {
        seq![flag] + values
    }
}

/// The arguments for a field whose values come with a count: nothing for a
/// count of zero, else the flag and as many of the values as the count allows.
pub open spec fn counted_group(flag: Seq<char>, count: nat, values: Seq<Seq<char>>) -> Seq<
    Seq<char>,
> {
    if count == 0 {
        Seq::empty()
    } else if count < values.len() {
        seq![flag] + values.take(count as int)
    } else {
        seq![flag] + values
    }
}

/// A count and the values of a list field.
fn list_iter(field: &Option<Vec<String>>) -> (r: (usize, Vec<String>))
    ensures
        r.0 == r.1.len(),
        texts(r.1@) == list_values(*field),
{
    match field {
        Some(list) => (list.len(), clone_strings(list)),
        None => {
            let values: Vec<String> = Vec::new();
            assert(texts(values@) =~= Seq::empty());
            (0, values)
        },
    }
}

/// A count and the value of a text field.
fn text_iter(field: &Option<String>) -> (r: (usize, Vec<String>))
    ensures
        r.0 == r.1.len(),
        texts(r.1@) == text_values(*field),
{
    let mut values: Vec<String> = Vec::new();
    match field {
        Some(text) => {
            values.push(text.clone());
            assert(texts(values@) =~= seq![text@]);
            (1, values)
        },
        None => {
            assert(texts(values@) =~= Seq::empty());
            (0, values)
        },
    }
}

/// A count and the value of a number field.
fn number_iter(field: &Option<u64>) -> (r: (usize, Vec<String>))
    ensures
        r.0 == r.1.len(),
        texts(r.1@) == number_values(*field),
{
    let mut values: Vec<String> = Vec::new();
    match field {
        Some(n) => {
            values.push(decimal_string(*n));
            assert(texts(values@) =~= seq![decimal(*n as nat)]);
            (1, values)
        },
        None => {
            assert(texts(values@) =~= Seq::empty());
            (0, values)
        },
    }
}

impl Cli {
    /// The arguments of the tag writer for the artifact `file`: the file,
    /// then one group for each field that has a value, in a fixed order.
    pub open spec fn tag_arguments(&self, file: Seq<char>) -> Seq<Seq<char>> {
        seq![file] + flag_group("--tags"@, list_values(self.tags)) + flag_group(
            "--artists"@,
            list_values(self.artists),
        ) + flag_group("--producers"@, list_values(self.producers)) + flag_group(
            "--genre"@,
            list_values(self.genre),
        ) + flag_group("--writers"@, list_values(self.writers)) + flag_group(
            "--title"@,
            text_values(self.title),
        ) + flag_group("--series-name"@, text_values(self.series_name)) + flag_group(
            "--subtitle"@,
            text_values(self.subtitle),
        ) + flag_group("--year"@, number_values(self.year)) + flag_group(
            "--episode"@,
            number_values(self.episode),
        ) + flag_group("--season"@, number_values(self.season))
    }

    /// How many tags there are, and the tags.
    pub fn tags_iter(&self) -> (r: (usize, Vec<String>))
        ensures
            r.0 == r.1.len(),
            texts(r.1@) == list_values(self.tags),
    {
        list_iter(&self.tags)
    }

    /// How many artists there are, and the artists.
    pub fn artists_iter(&self) -> (r: (usize, Vec<String>))
        ensures
            r.0 == r.1.len(),
            texts(r.1@) == list_values(self.artists),
    {
        list_iter(&self.artists)
    }

    /// How many producers there are, and the producers.
    pub fn producers_iter(&self) -> (r: (usize, Vec<String>))
        ensures
            r.0 == r.1.len(),
            texts(r.1@) == list_values(self.producers),
    {
        list_iter(&self.producers)
    }

    /// How many genres there are, and the genres.
    pub fn genres_iter(&self) -> (r: (usize, Vec<String>))
        ensures
            r.0 == r.1.len(),
            texts(r.1@) == list_values(self.genre),
    {
        list_iter(&self.genre)
    }

    /// How many writers there are, and the writers.
    pub fn writers_iter(&self) -> (r: (usize, Vec<String>))
        ensures
            r.0 == r.1.len(),
            texts(r.1@) == list_values(self.writers),
    {
        list_iter(&self.writers)
    }

    /// The title, if there is one, with its count.
    pub fn title_iter(&self) -> (r: (usize, Vec<String>))
        ensures
            r.0 == r.1.len(),
            texts(r.1@) == text_values(self.title),
    {
        text_iter(&self.title)
    }

    /// The name of the series, if there is one, with its count.
    pub fn series_name_iter(&self) -> (r: (usize, Vec<String>))
        ensures
            r.0 == r.1.len(),
            texts(r.1@) == text_values(self.series_name),
    {
        text_iter(&self.series_name)
    }

    /// The subtitle, if there is one, with its count.
    pub fn subtitle_iter(&self) -> (r: (usize, Vec<String>))
        ensures
            r.0 == r.1.len(),
            texts(r.1@) == text_values(self.subtitle),
    {
        text_iter(&self.subtitle)
    }

    /// The year in decimal, if there is one, with its count.
    pub fn year_iter(&self) -> (r: (usize, Vec<String>))
        ensures
            r.0 == r.1.len(),
            texts(r.1@) == number_values(self.year),
    {
        number_iter(&self.year)
    }

    /// The season in decimal, if there is one, with its count.
    pub fn season_iter(&self) -> (r: (usize, Vec<String>))
        ensures
            r.0 == r.1.len(),
            texts(r.1@) == number_values(self.season),
    {
        number_iter(&self.season)
    }

    /// The episode in decimal, if there is one, with its count.
    pub fn episode_iter(&self) -> (r: (usize, Vec<String>))
        ensures
            r.0 == r.1.len(),
            texts(r.1@) == number_values(self.episode),
    {
        number_iter(&self.episode)
    }

    /// Appends to `args` what one field contributes: nothing where the count
    /// is zero, else the flag followed by the counted values.
    pub fn add_flags(flag: &str, values: (usize, Vec<String>), args: &mut Vec<String>)
        ensures
            texts(final(args)@) == texts(old(args)@) + counted_group(
                flag@,
                values.0 as nat,
                texts(values.1@),
            ),
            values.0 == values.1.len() ==> texts(final(args)@) == texts(old(args)@) + flag_group(
                flag@,
                texts(values.1@),
            ),
    {
        let (count, list) = values;
        if count == 0 {
            assert(texts(args@) + Seq::<Seq<char>>::empty() =~= texts(args@));
            return ;
        }
        let ghost before = texts(args@);
        let first = flag.to_owned();
        proof {
            lemma_texts_push(args@, first);
        }
        args.push(first);
        assert(texts(list@).take(0) =~= Seq::empty());
        let mut i: usize = 0;
        while i < list.len() && i < count
            invariant
                i <= list.len(),
                i <= count,
                texts(args@) == before + seq![flag@] + texts(list@).take(i as int),
            decreases list.len() - i,
        {
            proof {
                lemma_texts_push(args@, list@[i as int]);
            }
            args.push(list[i].clone());
            i += 1;
            assert(texts(args@) =~= before + seq![flag@] + texts(list@).take(i as int));
        }
        assert(texts(list@).take(list.len() as int) =~= texts(list@));
        assert(before + seq![flag@] + texts(list@).take(i as int) =~= before + (seq![flag@]
            + texts(list@).take(i as int)));
    }

    /// The invocation of the tag writer at `path` for the artifact `file`.
    pub fn build_flags(&self, path: &str, file: &str) -> (r: Invocation)
        ensures
            r@ == (InvocationView {
                program: path@,
                args: self.tag_arguments(file@),
                current_dir: None,
            }),
    {
        let mut args: Vec<String> = Vec::new();
        args.push(file.to_owned());
        assert(texts(args@) =~= seq![file@]);
        Self::add_flags("--tags", self.tags_iter(), &mut args);
        Self::add_flags("--artists", self.artists_iter(), &mut args);
        Self::add_flags("--producers", self.producers_iter(), &mut args);
        Self::add_flags("--genre", self.genres_iter(), &mut args);
        Self::add_flags("--writers", self.writers_iter(), &mut args);
        Self::add_flags("--title", self.title_iter(), &mut args);
        Self::add_flags("--series-name", self.series_name_iter(), &mut args);
        Self::add_flags("--subtitle", self.subtitle_iter(), &mut args);
        Self::add_flags("--year", self.year_iter(), &mut args);
        Self::add_flags("--episode", self.episode_iter(), &mut args);
        Self::add_flags("--season", self.season_iter(), &mut args);
        Invocation { program: path.to_owned(), args, current_dir: None }
    }
}

/// A flag stands in the arguments only before its values: a field without
/// values contributes no argument at all, and any other field contributes
/// its flag once, followed by exactly its values.
pub proof fn lemma_flag_needs_a_value(flag: Seq<char>, values: Seq<Seq<char>>)
    ensures
        values.len() == 0 <==> flag_group(flag, values).len() == 0,
        values.len() > 0 ==> flag_group(flag, values).len() == values.len() + 1,
        values.len() > 0 ==> flag_group(flag, values)[0] == flag,
        values.len() > 0 ==> flag_group(flag, values).skip(1) == values,
{
    if values.len() > 0 {
        assert(flag_group(flag, values).skip(1) =~= values);
    }
}

/// A group that is made from the full count of its values is the flag and
/// the values, or nothing where there are none.
pub proof fn lemma_counted_group_full(flag: Seq<char>, values: Seq<Seq<char>>)
    ensures
        counted_group(flag, values.len(), values) == flag_group(flag, values),
{
}

} // verus!
