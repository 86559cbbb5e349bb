use vstd::prelude::*;
use crate::error::Error;
use crate::ledger::{Ledger, LedgerView};
use crate::models::Category;

verus! {

impl LedgerView {
    /// Whether the categories table refuses a new row: its name is taken,
    /// or no id is left.
    pub open spec fn refuses_category(self, row: Category) -> bool {
        self.has_category_named(row.name@) || self.next_category_id >= i32::MAX
    }

    /// Why the removal of a category is refused, if it is: there is no such
    /// category, or a transaction or an allocation names it.
    pub open spec fn category_removal_refusal(self, id: i32) -> Option<Error> {
        if !self.has_category(id as int) {
            Some(Error::NotFound)
        } else if self.category_in_use(id as int) {
            Some(Error::StoreError)
        } else {
            None
        }
    }
}

/// Stores a new category under the next id, whatever id `cat` carries, and
/// returns the stored row.
pub fn add(cat: Category, db: &mut Ledger) -> (res: Result<Category, Error>)
    requires
        old(db).wf(),
    ensures
        final(db).wf(),
        match res {
            Ok(stored) => {
                &&& !old(db)@.refuses_category(cat)
                &&& final(db)@ == old(db)@.with_category(cat)
                &&& stored == (Category { id: old(db)@.next_category_id as i32, ..cat })
            },
            Err(e) => {
                &&& e == Error::StoreError
                &&& old(db)@.refuses_category(cat)
                &&& final(db)@ == old(db)@
            },
        },
{
    if db.category_index_by_name(cat.name.as_str()).is_some() || !db.has_category_id_left() {
        return Err(Error::StoreError);
    }
    let copy = cat.duplicate();
    let id = db.push_category(cat);
    Ok(Category { id, group_id: copy.group_id, name: copy.name, order: copy.order })
}

/// Removes the category with this id and returns it. A category that a
/// transaction or an allocation names stays.
pub fn remove(id: i32, db: &mut Ledger) -> (res: Result<Category, Error>)
    requires
        old(db).wf(),
    ensures
        final(db).wf(),
        match res {
            Ok(row) => {
                &&& old(db)@.category_removal_refusal(id) is None
                &&& final(db)@ == old(db)@.without_category(old(db)@.category_pos(id as int))
                &&& row == old(db)@.categories[old(db)@.category_pos(id as int)]
            },
            Err(e) => {
                &&& old(db)@.category_removal_refusal(id) == Some(e)
                &&& final(db)@ == old(db)@
            },
        },
{
    let i = match db.category_index(id) {
        Some(i) => i,
        None => {
            return Err(Error::NotFound);
        },
    };
    if db.category_in_use(id) {
        return Err(Error::StoreError);
    }
    Ok(db.take_category(i))
}

/// All categories in row order.
pub fn list(db: &Ledger) -> (res: Result<Vec<Category>, Error>)
    ensures
        res matches Ok(rows) && rows@ == db@.categories,
{
    let stored = db.categories();
    let mut rows: Vec<Category> = Vec::new();
    let mut i: usize = 0;
    while i < stored.len()
        invariant
            i <= stored.len(),
            rows@ == stored@.take(i as int),
        decreases stored.len() - i,
    {
        rows.push(stored[i].duplicate());
        i += 1;
    }
    Ok(rows)
}

} // verus!
