use crate::components::input_dialog::InputDialog;
use vstd::prelude::*;
use vstd::std_specs::cmp::PartialEqSpec;

verus! {

impl<FieldId: PartialEq, ButtonId> InputDialog<FieldId, ButtonId> {
    /// What is typed into the first field with the id `field`.
    pub fn get_value(&self, field: FieldId) -> (value: Option<&str>)
        requires
            FieldId::obeys_eq_spec(),
        ensures
            match value {
                Some(text) => exists|i: int|
                    0 <= i < self.fields().len() && (#[trigger] self.fields()[i]).id.eq_spec(&field)
                        && text@ == self.fields()[i].value@ && forall|j: int|
                        0 <= j < i ==> !(#[trigger] self.fields()[j]).id.eq_spec(&field),
                None => forall|i: int|
                    0 <= i < self.fields().len() ==> !(#[trigger] self.fields()[i]).id.eq_spec(
                        &field,
                    ),
            },
    {
        let fields = self.field_list();
        let mut i: usize = 0;
        while i < fields.len()
            invariant
                i <= fields@.len(),
                fields@ == self.fields(),
                FieldId::obeys_eq_spec(),
                forall|j: int| 0 <= j < i ==> !(#[trigger] fields@[j]).id.eq_spec(&field),
            decreases fields@.len() - i,
        {
            if fields[i].id == field {
                return Some(fields[i].value.value());
            }
            i += 1;
        }
        None
    }
}

} // verus!
