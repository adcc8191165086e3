use vstd::prelude::*;

use crate::errors::Error;
use crate::input::csv_mapping::CsvMapping;
use crate::output::full_topic_name;

verus! {

#[verifier::external_type_specification]
#[verifier::external_body]
pub struct ExRegex(regex::Regex);

/// Whether this pattern is a well-formed regular expression.
pub uninterp spec fn regex_compiles(pattern: Seq<char>) -> bool;

/// Whether the regular expression compiled from `pattern` matches somewhere
/// inside `text`.
pub uninterp spec fn regex_match(pattern: Seq<char>, text: Seq<char>) -> bool;

/// A compiled file-name filter. The compiled expression and the pattern text
/// it was compiled from travel together, so that what a match means can be
/// stated over the pattern text.
pub struct FileFilter {
    regex: regex::Regex,
    pattern: String,
}

impl View for FileFilter {
    type V = Seq<char>;

    closed spec fn view(&self) -> Seq<char> {
        self.pattern@
    }
}

impl FileFilter {
    /// Relies on regex::Regex::new: succeeds exactly on well-formed
    /// patterns, and the stored pattern text is the one compiled.
    #[verifier::external_body]
    pub fn new(pattern: &str) -> (r: Result<FileFilter, Error>)
        ensures
            r is Ok <==> regex_compiles(pattern@),
            r matches Ok(f) ==> f@ == pattern@,
    {
        match regex::Regex::new(pattern) {
            Ok(re) => Ok(FileFilter { regex: re, pattern: pattern.to_string() }),
            Err(e) => Err(Error::Generic(e.to_string())),
        }
    }

    /// Relies on regex::Regex::is_match: the result depends on the pattern
    /// and the text alone; the expression here is the one compiled from
    /// `self@` by `new`.
    #[verifier::external_body]
    pub fn is_match(&self, text: &str) -> (r: bool)
        ensures
            r == regex_match(self@, text@),
    {
        self.regex.is_match(text)
    }

    /// The pattern text this filter was compiled from.
    pub fn pattern(&self) -> (r: &str)
        ensures
            r@ == self@,
    {
        self.pattern.as_str()
    }

    /// Relies on regex::Regex::clone: an equivalent expression for the same
    /// pattern.
    #[verifier::external_body]
    pub fn duplicate(&self) -> (r: FileFilter)
        ensures
            r@ == self@,
    {
        FileFilter { regex: self.regex.clone(), pattern: self.pattern.clone() }
    }
}

/// The available decoders, with their per-parser settings.
#[derive(Debug, Clone)]
pub enum ParserType {
    Csv { mapping_file: String, best_effort: Option<bool>, skip_lines: Option<usize> },
    Evtx,
    Hive { root_name: String },
    Srum,
}

/// One parser entry: the file-name filter that selects it and the decoder
/// it runs.
pub struct ParserConfig {
    pub file_filter: FileFilter,
    pub parser: ParserType,
}

/// The application configuration: where the archives are, how many workers
/// each stage runs, which parsers match which files and where the rows go.
pub struct Configuration {
    pub client_context: String,
    pub input_folder: String,
    pub input_is_decompressed: bool,
    pub temp_folder: String,
    pub archive_threads: usize,
    pub parsing_threads: usize,
    pub decompression_threads: usize,
    pub parsers: Vec<ParserConfig>,
    pub output: Vec<crate::output::OutputConfig>,
}

/// The semantic column types of the topic catalog.
#[derive(Debug, Clone, Copy, PartialEq, Eq, Structural)]
pub enum DataType {
    String,
    Date,
    Int32,
    Int64,
    Uint8,
    Uint16,
    Float,
    Boolean,
}

/// One logical topic: its full name, its table name, the typed fields known
/// in advance, and the field that orders its rows.
pub struct DataTopic {
    pub topic_name: String,
    pub table_name: String,
    pub partial_field_def: Vec<(String, DataType)>,
    pub sort_field: String,
}

impl DataTopic {
    /// Assemble a topic description.
    pub fn new(
        topic_name: String,
        table_name: String,
        partial_field_def: Vec<(String, DataType)>,
        sort_field: String,
    ) -> (r: DataTopic)
        ensures
            r.topic_name == topic_name,
            r.table_name == table_name,
            r.partial_field_def == partial_field_def,
            r.sort_field == sort_field,
    {
        DataTopic { topic_name, table_name, partial_field_def, sort_field }
    }
}

// ------------------------------------------------------------------
// The topic catalog: what list_topics yields, as (topic name, table name,
// sort field) triples, one entry per logical topic, duplicates elided.
// ------------------------------------------------------------------

/// The topic names of the ten SRUM tables, in catalog order.
pub open spec fn srum_topic_names() -> Seq<Seq<char>> {
    seq![
        "srum_app_timeline"@,
        "srum_application_resources"@,
        "srum_energy_estimation"@,
        "srum_energy_usage"@,
        "srum_energy_usage_long_term"@,
        "srum_network_connectivity_usage"@,
        "srum_network_data_usage"@,
        "srum_tagged_energy"@,
        "srum_vfuprov"@,
        "srum_wpn_provider"@,
    ]
}

/// The catalog entries of the SRUM tables under one client context.
pub open spec fn srum_catalog(context: Seq<char>) -> Seq<(Seq<char>, Seq<char>, Seq<char>)> {
    srum_topic_names().map_values(|t: Seq<char>| (context + seq!['_'] + t, t, "TimeStamp"@))
}

/// Whether a name was already listed.
pub open spec fn name_in(seen: Seq<Seq<char>>, name: Seq<char>) -> bool {
    exists|j: int| 0 <= j < seen.len() && seen[j] == name
}

/// How many parser entries are tabular: each consumes one mapping.
pub open spec fn csv_count(parsers: Seq<ParserConfig>) -> int
    decreases parsers.len(),
{
    if parsers.len() == 0 {
        0
    } else {
        (if parsers[0].parser is Csv {
            1int
        } else {
            0int
        }) + csv_count(parsers.drop_first())
    }
}

/// The sort field a mapping declares, or the empty name.
pub open spec fn mapping_sort_view(m: CsvMapping) -> Seq<char> {
    match m.sort_field {
        Some(sf) => sf@,
        None => Seq::empty(),
    }
}

/// The catalog of the parsers not yet walked: each parser adds its topics
/// unless its marker name was already listed; a tabular parser is marked by
/// its mapping's topic, the event-log, registry and SRUM parsers by fixed
/// markers, and the SRUM parser adds all ten of its topics at once.
pub open spec fn catalog_rec(
    context: Seq<char>,
    parsers: Seq<ParserConfig>,
    mappings: Seq<CsvMapping>,
    seen: Seq<Seq<char>>,
    mi: int,
) -> Seq<(Seq<char>, Seq<char>, Seq<char>)>
    decreases parsers.len(),
{
    if parsers.len() == 0 {
        Seq::empty()
    } else {
        let rest = parsers.drop_first();
        match parsers[0].parser {
            ParserType::Csv { .. } => {
                let name = mappings[mi].topic@;
                if name_in(seen, name) {
                    catalog_rec(context, rest, mappings, seen, mi + 1)
                } else {
                    seq![(context + seq!['_'] + name, name, mapping_sort_view(mappings[mi]))]
                        + catalog_rec(context, rest, mappings, seen.push(name), mi + 1)
                }
            },
            ParserType::Evtx => {
                if name_in(seen, "evtx"@) {
                    catalog_rec(context, rest, mappings, seen, mi)
                } else {
                    seq![(context + seq!['_'] + "evtx"@, "evtx"@, "System.TimeCreated"@)]
                        + catalog_rec(context, rest, mappings, seen.push("evtx"@), mi)
                }
            },
            ParserType::Srum => {
                if name_in(seen, "SRUM"@) {
                    catalog_rec(context, rest, mappings, seen, mi)
                } else {
                    srum_catalog(context) + catalog_rec(
                        context,
                        rest,
                        mappings,
                        seen.push("SRUM"@),
                        mi,
                    )
                }
            },
            ParserType::Hive { .. } => {
                if name_in(seen, "hive"@) {
                    catalog_rec(context, rest, mappings, seen, mi)
                } else {
                    seq![(context + seq!['_'] + "hive"@, "hive"@, "TimeStamp"@)] + catalog_rec(
                        context,
                        rest,
                        mappings,
                        seen.push("hive"@),
                        mi,
                    )
                }
            },
        }
    }
}

/// The whole catalog of a configuration.
pub open spec fn spec_catalog(
    context: Seq<char>,
    parsers: Seq<ParserConfig>,
    mappings: Seq<CsvMapping>,
) -> Seq<(Seq<char>, Seq<char>, Seq<char>)> {
    catalog_rec(context, parsers, mappings, Seq::empty(), 0)
}

/// The (topic name, table name, sort field) triples of built topics.
pub open spec fn topics_view(list: Seq<DataTopic>) -> Seq<(Seq<char>, Seq<char>, Seq<char>)> {
    list.map_values(|d: DataTopic| (d.topic_name@, d.table_name@, d.sort_field@))
}

/// Whether a name is among those already listed.
#[verifier::loop_isolation(false)]
fn contains_name(list: &Vec<String>, name: &str) -> (r: bool)
    ensures
        r == name_in(list@.map_values(|s: String| s@), name@),
{
    let ghost views = list@.map_values(|s: String| s@);
    let mut i: usize = 0;
    while i < list.len()
        invariant
            i <= list@.len(),
            forall|j: int| 0 <= j < i ==> views[j] != name@,
        decreases list.len() - i,
    {
        if crate::text::str_eq(list[i].as_str(), name) {
            assert(views[i as int] == name@);
            return true;
        }
        i = i + 1;
    }
    false
}

impl Configuration {
    /// The logical topics this configuration produces, in order of first
    /// appearance: one per distinct tabular mapping topic, one for the
    /// event-log parser, one for the registry parser, and the ten SRUM
    /// topics; `csv_mappings` holds the loaded mapping of each tabular
    /// parser, in parser order.
    #[verifier::loop_isolation(false)]
    pub fn list_topics(&self, csv_mappings: &Vec<CsvMapping>) -> (r: Result<Vec<DataTopic>, Error>)
        requires
            csv_mappings@.len() == csv_count(self.parsers@),
        ensures
            r is Ok,
            r matches Ok(list) ==> topics_view(list@) == spec_catalog(
                self.client_context@,
                self.parsers@,
                csv_mappings@,
            ),
    {
        let ghost context = self.client_context@;
        let ghost cat = spec_catalog(context, self.parsers@, csv_mappings@);
        let mut list: Vec<DataTopic> = Vec::new();
        let mut is_parsed: Vec<String> = Vec::new();
        let mut mi: usize = 0;
        let mut i: usize = 0;
        proof {
            lemma_csv_count_nonneg(self.parsers@);
            assert(self.parsers@.skip(0) =~= self.parsers@);
            assert(topics_view(list@) =~= Seq::<(Seq<char>, Seq<char>, Seq<char>)>::empty());
            assert(is_parsed@.map_values(|s: String| s@) =~= Seq::<Seq<char>>::empty());
            assert(cat =~= topics_view(list@) + catalog_rec(
                context,
                self.parsers@.skip(0),
                csv_mappings@,
                is_parsed@.map_values(|s: String| s@),
                0,
            ));
        }
        while i < self.parsers.len()
            invariant
                i <= self.parsers@.len(),
                mi + csv_count(self.parsers@.skip(i as int)) == csv_count(self.parsers@),
                csv_mappings@.len() == csv_count(self.parsers@),
                0 <= csv_count(self.parsers@.skip(i as int)),
                cat == topics_view(list@) + catalog_rec(
                    context,
                    self.parsers@.skip(i as int),
                    csv_mappings@,
                    is_parsed@.map_values(|s: String| s@),
                    mi as int,
                ),
            decreases self.parsers.len() - i,
        {
            proof {
                assert(self.parsers@.skip(i as int).drop_first() =~= self.parsers@.skip(i + 1));
                assert(self.parsers@.skip(i as int)[0] == self.parsers@[i as int]);
                lemma_csv_count_nonneg(self.parsers@.skip(i + 1));
            }
            let ghost seen0 = is_parsed@.map_values(|s: String| s@);
            match &self.parsers[i].parser {
                ParserType::Csv { .. } => {
                    proof {
                        assert(self.parsers@[i as int].parser is Csv);
                        assert(csv_count(self.parsers@.skip(i as int)) >= 1);
                        assert(mi < csv_mappings@.len());
                    }
                    let total_mappings = csv_mappings.len();
                    assert(mi < total_mappings);
                    let mapping = &csv_mappings[mi];
                    if !contains_name(&is_parsed, mapping.topic.as_str()) {
                        let topic_name = full_topic_name(
                            self.client_context.as_str(),
                            mapping.topic.as_str(),
                        );
                        let partial_field_def = mapping.partial_fields();
                        let sort_field = match &mapping.sort_field {
                            Some(sf) => sf.clone(),
                            None => String::new(),
                        };
                        list.push(
                            DataTopic::new(
                                topic_name,
                                mapping.topic.clone(),
                                partial_field_def,
                                sort_field,
                            ),
                        );
                        is_parsed.push(mapping.topic.clone());
                        proof {
                            lemma_seen_push(is_parsed@, seen0, mapping.topic@);
                            assert(topics_view(list@) =~= topics_view(list@.drop_last()).push(
                                (list@.last().topic_name@, list@.last().table_name@, list@.last().sort_field@),
                            ));
                            assert(cat =~= topics_view(list@) + catalog_rec(
                                context,
                                self.parsers@.skip(i + 1),
                                csv_mappings@,
                                is_parsed@.map_values(|s: String| s@),
                                mi + 1,
                            ));
                        }
                    }
                    mi = mi + 1;
                },
                ParserType::Evtx => {
                    if !contains_name(&is_parsed, crate::input::evtx::EVTX_TABLE_NAME) {
                        let topic_name = full_topic_name(
                            self.client_context.as_str(),
                            crate::input::evtx::EVTX_TABLE_NAME,
                        );
                        let partial_field_def = crate::input::evtx::evtx_fields();
                        list.push(
                            DataTopic::new(
                                topic_name,
                                String::from_str(crate::input::evtx::EVTX_TABLE_NAME),
                                partial_field_def,
                                String::from_str(crate::input::evtx::EVTX_SORT_FIELD),
                            ),
                        );
                        is_parsed.push(String::from_str(crate::input::evtx::EVTX_TABLE_NAME));
                        proof {
                            lemma_seen_push(is_parsed@, seen0, "evtx"@);
                            assert(topics_view(list@) =~= topics_view(list@.drop_last()).push(
                                (list@.last().topic_name@, list@.last().table_name@, list@.last().sort_field@),
                            ));
                            assert(cat =~= topics_view(list@) + catalog_rec(
                                context,
                                self.parsers@.skip(i + 1),
                                csv_mappings@,
                                is_parsed@.map_values(|s: String| s@),
                                mi as int,
                            ));
                        }
                    }
                },
                ParserType::Srum => {
                    if !contains_name(&is_parsed, "SRUM") {
                        let tables = crate::input::srum_model::srum_tables();
                        let ghost lbase = list@;
                        let mut k: usize = 0;
                        while k < tables.len()
                            invariant
                                k <= 10,
                                tables@.len() == 10,
                                forall|t: int|
                                    0 <= t < 10 ==> (#[trigger] tables@[t]).topic@
                                        == srum_topic_names()[t],
                                list@.len() == lbase.len() + k,
                                topics_view(list@) =~= topics_view(lbase) + srum_catalog(
                                    context,
                                ).take(k as int),
                            decreases tables.len() - k,
                        {
                            let topic_name = full_topic_name(
                                self.client_context.as_str(),
                                tables[k].topic,
                            );
                            let mut partial_field_def: Vec<(String, DataType)> = Vec::new();
                            let mut f: usize = 0;
                            while f < tables[k].fields.len()
                                invariant
                                    k < tables@.len(),
                                decreases tables@[k as int].fields@.len() - f,
                            {
                                let (fname, ftype) = tables[k].fields[f];
                                partial_field_def.push((fname.to_owned(), ftype));
                                f = f + 1;
                            }
                            let ghost lprev = list@;
                            list.push(
                                DataTopic::new(
                                    topic_name,
                                    tables[k].topic.to_owned(),
                                    partial_field_def,
                                    String::from_str(crate::input::srum_model::SRUM_SORT_FIELD),
                                ),
                            );
                            proof {
                                assert(list@.drop_last() =~= lprev);
                                assert(topics_view(list@) =~= topics_view(lprev).push(
                                    (list@.last().topic_name@, list@.last().table_name@, list@.last().sort_field@),
                                ));
                                assert(srum_catalog(context)[k as int] == (
                                    context + seq!['_'] + srum_topic_names()[k as int],
                                    srum_topic_names()[k as int],
                                    "TimeStamp"@,
                                ));
                                assert(list@.last().topic_name@ == context + seq!['_']
                                    + srum_topic_names()[k as int]);
                                assert(list@.last().table_name@ == srum_topic_names()[k as int]);
                                assert(list@.last().sort_field@ == "TimeStamp"@);
                                assert(srum_catalog(context).take(k + 1) =~= srum_catalog(
                                    context,
                                ).take(k as int).push(srum_catalog(context)[k as int]));
                                assert(topics_view(list@) =~= topics_view(lbase) + srum_catalog(
                                    context,
                                ).take(k + 1));
                            }
                            k = k + 1;
                        }
                        is_parsed.push(String::from_str("SRUM"));
                        proof {
                            lemma_seen_push(is_parsed@, seen0, "SRUM"@);
                            assert(srum_catalog(context).take(10) =~= srum_catalog(context));
                            assert(cat =~= topics_view(list@) + catalog_rec(
                                context,
                                self.parsers@.skip(i + 1),
                                csv_mappings@,
                                is_parsed@.map_values(|s: String| s@),
                                mi as int,
                            ));
                        }
                    }
                },
                ParserType::Hive { .. } => {
                    if !contains_name(&is_parsed, crate::input::hive::HIVE_TABLE_NAME) {
                        let topic_name = full_topic_name(
                            self.client_context.as_str(),
                            crate::input::hive::HIVE_TABLE_NAME,
                        );
                        let partial_field_def = crate::input::hive::hive_fields();
                        list.push(
                            DataTopic::new(
                                topic_name,
                                String::from_str(crate::input::hive::HIVE_TABLE_NAME),
                                partial_field_def,
                                String::from_str(crate::input::hive::HIVE_SORT_FIELD),
                            ),
                        );
                        is_parsed.push(String::from_str(crate::input::hive::HIVE_TABLE_NAME));
                        proof {
                            lemma_seen_push(is_parsed@, seen0, "hive"@);
                            assert(topics_view(list@) =~= topics_view(list@.drop_last()).push(
                                (list@.last().topic_name@, list@.last().table_name@, list@.last().sort_field@),
                            ));
                            assert(cat =~= topics_view(list@) + catalog_rec(
                                context,
                                self.parsers@.skip(i + 1),
                                csv_mappings@,
                                is_parsed@.map_values(|s: String| s@),
                                mi as int,
                            ));
                        }
                    }
                },
            }
            i = i + 1;
        }
        proof {
            assert(self.parsers@.skip(self.parsers@.len() as int) =~= Seq::<ParserConfig>::empty());
            assert(cat =~= topics_view(list@));
        }
        Ok(list)
    }
}

/// The tabular count is never negative.
pub proof fn lemma_csv_count_nonneg(parsers: Seq<ParserConfig>)
    ensures
        csv_count(parsers) >= 0,
    decreases parsers.len(),
{
    if parsers.len() > 0 {
        lemma_csv_count_nonneg(parsers.drop_first());
    }
}

/// Listing one more name extends the seen names by exactly that name.
proof fn lemma_seen_push(now: Seq<String>, before: Seq<Seq<char>>, name: Seq<char>)
    requires
        now.len() > 0,
        before.len() == now.len() - 1,
        forall|j: int| 0 <= j < before.len() ==> #[trigger] before[j] == now[j]@,
        now.last()@ == name,
    ensures
        now.map_values(|s: String| s@) =~= before.push(name),
{
    let m = now.map_values(|s: String| s@);
    assert(m.len() == before.push(name).len());
    assert forall|j: int| 0 <= j < m.len() implies m[j] == before.push(name)[j] by {
        assert(m[j] == now[j]@);
    }
}

} // verus!
