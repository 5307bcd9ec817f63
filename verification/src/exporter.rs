//! The exporter and its per-scrape session.

use vstd::prelude::*;
use crate::text::{label_block_text, labels_text, label_pair_text, line_text, dec_int, render_i64};

verus! {

/// The view of an owned label list: each pair as its two character sequences.
pub open spec fn pair_views(pairs: Seq<(String, String)>) -> Seq<(Seq<char>, Seq<char>)> {
    pairs.map_values(|p: (String, String)| (p.0@, p.1@))
}

/// The view of a borrowed call-site label list.
pub open spec fn str_pair_views(pairs: Seq<(&str, &str)>) -> Seq<(Seq<char>, Seq<char>)> {
    pairs.map_values(|p: (&str, &str)| (p.0@, p.1@))
}

/// A Prometheus exporter.
///
/// This is a configuration wrapper to allow for optional global labels.
pub struct Exporter {
    pub global_labels: Vec<(String, String)>,
}

impl Exporter {
    /// An exporter with no global labels.
    pub fn new() -> (e: Exporter)
        ensures
            pair_views(e.global_labels@) == Seq::<(Seq<char>, Seq<char>)>::empty(),
    {
        let e = Exporter { global_labels: Vec::new() };
        proof {
            assert(pair_views(e.global_labels@) =~= Seq::<(Seq<char>, Seq<char>)>::empty());
        }
        e
    }

    /// Adds a label to the end of the list of global labels. Nothing is
    /// deduplicated or validated; the pair is stored verbatim.
    pub fn add_global_label(&mut self, key: &str, value: &str)
        ensures
            pair_views(final(self).global_labels@) == pair_views(old(self).global_labels@).push(
                (key@, value@),
            ),
    {
        self.global_labels.push((key.to_owned(), value.to_owned()));
        proof {
            assert(pair_views(final(self).global_labels@) =~= pair_views(
                old(self).global_labels@,
            ).push((key@, value@)));
        }
    }

    /// Creates a new exporter session with an empty buffer, bound to this
    /// exporter. Does not mutate the exporter.
    pub fn session(&self) -> (s: ExporterSession<'_>)
        ensures
            s.globals_view() == pair_views(self.global_labels@),
            s.buffer_view() == Seq::<char>::empty(),
    {
        ExporterSession { exporter: self, buffer: String::new() }
    }
}

/// A per-scrape accumulator: borrows one exporter and owns a growing text
/// buffer to which `export` appends one exposition line per call.
pub struct ExporterSession<'a> {
    exporter: &'a Exporter,
    buffer: String,
}

impl<'a> ExporterSession<'a> {
    /// The global labels this session renders before every call's own,
    /// exactly the bound exporter's list.
    pub closed spec fn globals_view(&self) -> Seq<(Seq<char>, Seq<char>)> {
        pair_views(self.exporter.global_labels@)
    }

    /// The text accumulated so far.
    pub closed spec fn buffer_view(&self) -> Seq<char> {
        self.buffer@
    }

    /// The accumulated buffer as a string: the scrape response body built
    /// so far, always a whole number of lines.
    pub fn to_string(&self) -> (s: String)
        ensures
            s@ == self.buffer_view(),
    {
        self.buffer.clone()
    }

    /// Formats a single Prometheus metric and appends it to the exporter session.
    ///
    /// The value's text is taken as given, so any rendering of a numeric
    /// reading can be passed through; `export` renders integers itself.
    ///
    /// Note that this function will allow conflicting metric names to be
    /// written, so the caller is responsible for ensuring that each set of
    /// (name, labels) is unique.
    pub fn export_text(&mut self, name: &str, value: &str, labels: &[(&str, &str)])
        ensures
            final(self).globals_view() == old(self).globals_view(),
            final(self).buffer_view() == old(self).buffer_view() + line_text(
                name@,
                old(self).globals_view() + str_pair_views(labels@),
                value@,
            ),
    {
        let ghost all_pairs: Seq<(Seq<char>, Seq<char>)> = self.globals_view()
            + str_pair_views(labels@);
        self.buffer.append(name);
        let n_globals: usize = self.exporter.global_labels.len();
        if n_globals > 0 || labels.len() > 0 {
            proof {
                reveal_strlit("{");
                reveal_strlit("}");
            }
            self.buffer.append("{");
            let mut i: usize = 0;
            while i < n_globals
                invariant
                    i <= n_globals,
                    n_globals == self.exporter.global_labels.len(),
                    self.globals_view() == old(self).globals_view(),
                    all_pairs == self.globals_view() + str_pair_views(labels@),
                    self.buffer@ == old(self).buffer@ + name@ + seq!['{'] + labels_text(
                        all_pairs.take(i as int),
                    ),
                decreases n_globals - i,
            {
                if i > 0 {
                    proof {
                        reveal_strlit(",");
                    }
                    self.buffer.append(",");
                }
                self.append_pair_parts(i);
                proof {
                    let cur: Seq<(Seq<char>, Seq<char>)> = all_pairs.take(i as int + 1);
                    assert(cur.drop_last() =~= all_pairs.take(i as int));
                    assert(cur.last() == all_pairs[i as int]);
                    assert(all_pairs[i as int] == self.globals_view()[i as int]);
                    assert(self.buffer@ =~= old(self).buffer@ + name@ + seq!['{'] + labels_text(
                        cur,
                    ));
                }
                i = i + 1;
            }
            let mut j: usize = 0;
            while j < labels.len()
                invariant
                    j <= labels.len(),
                    n_globals == self.exporter.global_labels.len(),
                    self.globals_view() == old(self).globals_view(),
                    all_pairs == self.globals_view() + str_pair_views(labels@),
                    self.buffer@ == old(self).buffer@ + name@ + seq!['{'] + labels_text(
                        all_pairs.take(n_globals + j),
                    ),
                decreases labels.len() - j,
            {
                let ghost k: int = n_globals + j;
                proof {
                    assert(all_pairs[k] == str_pair_views(labels@)[j as int]);
                    assert(all_pairs[k] == (labels@[j as int].0@, labels@[j as int].1@));
                }
                if n_globals > 0 || j > 0 {
                    proof {
                        reveal_strlit(",");
                    }
                    self.buffer.append(",");
                }
                let pair: (&str, &str) = labels[j];
                self.buffer.append(pair.0);
                proof {
                    reveal_strlit("=\"");
                    reveal_strlit("\"");
                }
                self.buffer.append("=\"");
                self.buffer.append(pair.1);
                self.buffer.append("\"");
                proof {
                    let cur: Seq<(Seq<char>, Seq<char>)> = all_pairs.take(k + 1);
                    assert(cur.drop_last() =~= all_pairs.take(k));
                    assert(cur.last() == all_pairs[k]);
                    assert(self.buffer@ =~= old(self).buffer@ + name@ + seq!['{'] + labels_text(
                        cur,
                    ));
                }
                j = j + 1;
            }
            self.buffer.append("}");
            proof {
                assert(all_pairs.take(all_pairs.len() as int) =~= all_pairs);
                assert(self.buffer@ =~= old(self).buffer@ + name@ + label_block_text(all_pairs));
            }
        } else {
            proof {
                assert(all_pairs =~= Seq::<(Seq<char>, Seq<char>)>::empty());
                assert(self.buffer@ =~= old(self).buffer@ + name@ + label_block_text(all_pairs));
            }
        }
        proof {
            reveal_strlit(" ");
            reveal_strlit("\n");
        }
        self.buffer.append(" ");
        self.buffer.append(value);
        self.buffer.append("\n");
        proof {
            assert(self.buffer@ =~= old(self).buffer@ + line_text(name@, all_pairs, value@));
        }
    }

    /// Appends global pair number `i` to the buffer as `key="value"`.
    fn append_pair_parts(&mut self, i: usize)
        requires
            i < old(self).exporter.global_labels@.len(),
        ensures
            final(self).exporter == old(self).exporter,
            final(self).buffer@ == old(self).buffer@ + label_pair_text(
                old(self).globals_view()[i as int].0,
                old(self).globals_view()[i as int].1,
            ),
    {
        let pair: &(String, String) = &self.exporter.global_labels[i];
        self.buffer.append(pair.0.as_str());
        proof {
            reveal_strlit("=\"");
            reveal_strlit("\"");
        }
        self.buffer.append("=\"");
        self.buffer.append(pair.1.as_str());
        self.buffer.append("\"");
        proof {
            assert(final(self).buffer@ =~= old(self).buffer@ + label_pair_text(
                old(self).globals_view()[i as int].0,
                old(self).globals_view()[i as int].1,
            ));
        }
    }

    /// Formats a single Prometheus metric with an integer reading and
    /// appends it to the exporter session. The value renders as its plain
    /// decimal text, exactly what the default numeric-to-string conversion
    /// yields for an integral reading.
    ///
    /// Note that this function will allow conflicting metric names to be
    /// written, so the caller is responsible for ensuring that each set of
    /// (name, labels) is unique.
    pub fn export(&mut self, name: &str, value: i64, labels: &[(&str, &str)])
        ensures
            final(self).globals_view() == old(self).globals_view(),
            final(self).buffer_view() == old(self).buffer_view() + line_text(
                name@,
                old(self).globals_view() + str_pair_views(labels@),
                dec_int(value as int),
            ),
    {
        let rendered: String = render_i64(value);
        self.export_text(name, rendered.as_str(), labels);
    }
}

} // verus!
