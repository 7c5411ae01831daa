//! The per-topic record: the latest known state of one topic key.

use vstd::prelude::*;

verus! {

/// Mathematical image of a [`TopicRecord`].
#[verifier::ext_equal]
pub struct RecordView {
    pub key: Seq<char>,
    pub size_bytes: u64,
    pub received_at: u64,
    pub decoded_content: Option<Seq<char>>,
    pub estimated_hz_millihz: u64,
}

/// The latest known state of one topic: its key, the size and arrival time of
/// the most recent payload, an optional human-readable rendering of that
/// payload, and the current frequency estimate in millihertz.
///
/// Two records count as "unchanged" for diffing purposes only when every
/// field coincides; in particular a changed `received_at` alone is a change.
#[verifier::ext_equal]
pub struct TopicRecord {
    pub key: String,
    pub size_bytes: u64,
    pub received_at: u64,
    pub decoded_content: Option<String>,
    pub estimated_hz_millihz: u64,
}

impl View for TopicRecord {
    type V = RecordView;

    open spec fn view(&self) -> RecordView {
        RecordView {
            key: self.key@,
            size_bytes: self.size_bytes,
            received_at: self.received_at,
            decoded_content: match self.decoded_content {
                Some(s) => Some(s@),
                None => None,
            },
            estimated_hz_millihz: self.estimated_hz_millihz,
        }
    }
}

impl TopicRecord {
    /// An independent copy of the record, safe for a caller to retain while
    /// the original keeps living in the store.
    pub fn duplicate(&self) -> (r: Self)
        ensures
            r == *self,
    {
        let r = TopicRecord {
            key: self.key.clone(),
            size_bytes: self.size_bytes,
            received_at: self.received_at,
            decoded_content: match &self.decoded_content {
                Some(s) => Some(s.clone()),
                None => None,
            },
            estimated_hz_millihz: self.estimated_hz_millihz,
        };
        proof {
            assert(r =~= *self);
        }
        r
    }

    /// Field-wise equality: the "unchanged" test used by the diff engine.
    pub fn same_record(&self, other: &TopicRecord) -> (r: bool)
        ensures
            r == (self@ == other@),
    {
        let keys_eq = self.key == other.key;
        let decoded_eq = match (&self.decoded_content, &other.decoded_content) {
            (Some(a), Some(b)) => *a == *b,
            (None, None) => true,
            _ => false,
        };
        let r = keys_eq && decoded_eq && self.size_bytes == other.size_bytes
            && self.received_at == other.received_at && self.estimated_hz_millihz
            == other.estimated_hz_millihz;
        proof {
            if r {
                assert(self@ =~= other@);
            }
        }
        r
    }
}

} // verus!
