//! Compact textual format: every group of the logger context stands on an
//! indented line of its own, printed only when it changed since the last
//! record.
use vstd::prelude::*;

use crate::decorator::{ColorDecorator, ColorRecordDecorator};
use crate::kv::OwnedKVList;
use crate::record::Record;
use crate::term::{compact_result, utc_timestamp, FormatMode, TermFormat};

verus! {

/// The plain per-record decorator: every part written as it is.
pub open spec fn plain_decoration() -> ColorRecordDecorator {
    ColorRecordDecorator { level_color: None, bold: false }
}

/// Compact logging format.
pub struct Format {
    inner: TermFormat<ColorDecorator>,
}

impl Format {
    /// The inner format is in compact mode and does not color.
    #[verifier::type_invariant]
    spec fn well_formed(&self) -> bool {
        &&& self.inner.spec_compact()
        &&& !self.inner.spec_decorator().spec_use_color()
    }

    /// The group printed last at each indentation.
    pub closed spec fn spec_history(&self) -> Seq<usize> {
        self.inner.spec_history()
    }

    /// New compact format with an empty history.
    pub fn new() -> (r: Self)
        ensures
            r.spec_history() == Seq::<usize>::empty(),
    {
        Format { inner: TermFormat::new(FormatMode::Compact, ColorDecorator::new_plain()) }
    }

    /// Format a record at time `ts`; `addresses[i]` identifies the `i`-th
    /// group of `values`.
    pub fn format_at(
        &mut self,
        ts: &str,
        record: &Record,
        values: &OwnedKVList,
        addresses: &Vec<usize>,
    ) -> (r: String)
        requires
            addresses@.len() == values.groups().len(),
        ensures
            ({
                let res = compact_result(
                    plain_decoration(),
                    ts@,
                    *record,
                    *values,
                    addresses@,
                    old(self).spec_history(),
                );
                &&& r@ == res.text
                &&& final(self).spec_history() == res.history
            }),
    {
        proof {
            use_type_invariant(&*self);
        }
        let mut inner = TermFormat::new(FormatMode::Compact, ColorDecorator::new_plain());
        std::mem::swap(&mut inner, &mut self.inner);
        let r = inner.format_at(ts, record, values, addresses);
        self.inner = inner;
        r
    }

    /// Format a record at the current UTC time.
    pub fn format(&mut self, record: &Record, values: &OwnedKVList, addresses: &Vec<usize>) -> (r:
        String)
        requires
            addresses@.len() == values.groups().len(),
        ensures
            exists|ts: Seq<char>|
                #![trigger compact_result(plain_decoration(), ts, *record, *values, addresses@, old(self).spec_history())]
                {
                    let res = compact_result(
                        plain_decoration(),
                        ts,
                        *record,
                        *values,
                        addresses@,
                        old(self).spec_history(),
                    );
                    &&& ts.len() > 0
                    &&& r@ == res.text
                    &&& final(self).spec_history() == res.history
                },
    {
        let ts = utc_timestamp();
        let r = self.format_at(ts.as_str(), record, values, addresses);
        proof {
            let res = compact_result(
                plain_decoration(),
                ts@,
                *record,
                *values,
                addresses@,
                old(self).spec_history(),
            );
            assert(r@ == res.text && self.spec_history() == res.history);
        }
        r
    }
}

} // verus!
