use vstd::prelude::*;

verus! {

/// One saved discussion as the session store keeps it. `participants` and
/// `messages` hold JSON text written by the front end.
pub struct SavedSession {
    pub id: i64,
    pub topic: String,
    pub participants: String,
    pub messages: String,
    pub created_at: String,
    pub updated_at: String,
}

/// The text of `o`, or the empty text.
pub open spec fn text_or_empty(o: Option<String>) -> Seq<char> {
    match o {
        Some(s) => s@,
        None => Seq::empty(),
    }
}

fn string_or_empty(o: Option<String>) -> (r: String)
    ensures
        r@ == text_or_empty(o),
{
    match o {
        Some(s) => s,
        None => String::new(),
    }
}

impl SavedSession {
    /// A session from the columns of one stored row; a column that could not
    /// be read becomes 0 or the empty text.
    pub fn from_columns(
        id: Option<i64>,
        topic: Option<String>,
        participants: Option<String>,
        messages: Option<String>,
        created_at: Option<String>,
        updated_at: Option<String>,
    ) -> (r: SavedSession)
        ensures
            r.id == (match id {
                Some(v) => v,
                None => 0,
            }),
            r.topic@ == text_or_empty(topic),
            r.participants@ == text_or_empty(participants),
            r.messages@ == text_or_empty(messages),
            r.created_at@ == text_or_empty(created_at),
            r.updated_at@ == text_or_empty(updated_at),
    {
        SavedSession {
            id: match id {
                Some(v) => v,
                None => 0,
            },
            topic: string_or_empty(topic),
            participants: string_or_empty(participants),
            messages: string_or_empty(messages),
            created_at: string_or_empty(created_at),
            updated_at: string_or_empty(updated_at),
        }
    }
}

} // verus!
