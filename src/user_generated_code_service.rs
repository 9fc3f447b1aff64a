use crate::db_types::UserGeneratedCode;
use crate::request::UserGeneratedCodeViewProps;
use crate::filter::{in_texts, in_texts_exec};
use crate::store::{StorageError, Store, StoreView};
use crate::table::{deref_opt, derefs, keep_where, matching, page, page_rows};
use vstd::prelude::*;

verus! {

/// Stores a new `UserGeneratedCode` under the next free id, created at `creation_time`
/// by `creator_user_id`. Fails when the table is full.
pub fn add(
    store: &mut Store,
    creator_user_id: i64,
    creation_time: i64,
    source_code: String,
    source_lang: String,
    wasm_cache: Vec<u8>,
) -> (r: Result<UserGeneratedCode, StorageError>)
    requires
        old(store).wf(),
    ensures
        final(store).wf(),
        r is Ok <==> (old(store).user_generated_codes.has_room()),
        r matches Ok(row) ==> {
            &&& row.user_generated_code_id == old(store).user_generated_codes.next_id()
                && row.creation_time == creation_time
                && row.creator_user_id == creator_user_id
            &&& row.source_code == source_code
            &&& row.source_lang == source_lang
            &&& row.wasm_cache@ == wasm_cache@
            &&& final(store)@ == (StoreView {
                user_generated_codes: old(store)@.user_generated_codes.push((UserGeneratedCode {
                    user_generated_code_id: old(store).user_generated_codes.next_id() as i64,
                    creation_time,
                    creator_user_id,
                    source_code,
                    source_lang,
                    wasm_cache,
                })),
                ..old(store)@
            })
        },
        r matches Err(e) ==>
            final(store)@ == old(store)@
                && (e == StorageError::TableFull <==> !old(store).user_generated_codes.has_room()),
{
    if !store.user_generated_codes.room() {
        return Err(StorageError::TableFull);
    }
    let id = store.user_generated_codes.fresh_id();
    let row = UserGeneratedCode {
        user_generated_code_id: id,
        creation_time,
        creator_user_id,
        source_code: source_code.clone(),
        source_lang: source_lang.clone(),
        wasm_cache: wasm_cache.clone(),
    };
    assert(row.wasm_cache@ =~= wasm_cache@);
    store.user_generated_codes.insert(UserGeneratedCode {
        user_generated_code_id: id,
        creation_time,
        creator_user_id,
        source_code,
        source_lang,
        wasm_cache,
    });
    Ok(row)
}

/// The `UserGeneratedCode` with id `user_generated_code_id`, if there is one.
pub fn get_by_user_generated_code_id(
    store: &Store,
    user_generated_code_id: i64,
) -> (r: Option<&UserGeneratedCode>)
    requires
        store.wf(),
    ensures
        deref_opt(r) == store.user_generated_codes.lookup(user_generated_code_id),
{
    store.user_generated_codes.get(user_generated_code_id)
}

/// Whether the `UserGeneratedCode` attributes that `p` names match row `r`.
pub open spec fn keeps(p: UserGeneratedCodeViewProps, s: StoreView, r: UserGeneratedCode) -> bool {
    in_texts(p.source_langs, r.source_lang)
}

pub open spec fn kept(
    p: UserGeneratedCodeViewProps,
    s: StoreView,
) -> spec_fn(UserGeneratedCode) -> bool {
    |r: UserGeneratedCode| keeps(p, s, r)
}

/// What a query with `p` returns: the rows that the common options keep (with
/// `only_recent` judged against the whole table) and whose attributes match,
/// in ascending id order, then paginated.
pub open spec fn selection_of(
    p: UserGeneratedCodeViewProps,
    s: StoreView,
) -> Seq<UserGeneratedCode> {
    let m = matching(p.rows, s.user_generated_codes, s.user_generated_codes.len() as int);
    page(keep_where(m, kept(p, s), m.len() as int), p.rows.offset, p.rows.count)
}

fn keeps_row(p: &UserGeneratedCodeViewProps, store: &Store, r: &UserGeneratedCode) -> (b: bool)
    requires
        store.wf(),
    ensures
        b == keeps(*p, store@, *r),
{
    in_texts_exec(&p.source_langs, &r.source_lang)
}

/// The `UserGeneratedCode` rows that `props` selects.
pub fn query<'a>(
    store: &'a Store,
    props: &UserGeneratedCodeViewProps,
) -> (r: Vec<&'a UserGeneratedCode>)
    requires
        store.wf(),
    ensures
        derefs(r@) == selection_of(*props, store@),
{
    let rows = store.user_generated_codes.matching_rows(&props.rows);
    let ghost m = derefs(rows@);
    let mut kept_rows: Vec<&'a UserGeneratedCode> = Vec::new();
    let mut i: usize = 0;
    while i < rows.len()
        invariant
            0 <= i <= rows@.len(),
            store.wf(),
            m == derefs(rows@),
            derefs(kept_rows@) == keep_where(m, kept(*props, store@), i as int),
        decreases rows@.len() - i,
    {
        let row = rows[i];
        assert(m[i as int] == *row);
        if keeps_row(props, store, row) {
            kept_rows.push(row);
        }
        assert(derefs(kept_rows@) =~= keep_where(m, kept(*props, store@), i + 1));
        i = i + 1;
    }
    page_rows(kept_rows, props.rows.offset, props.rows.count)
}

} // verus!
