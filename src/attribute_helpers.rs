//! The attribute that declares behaviors on an element.
use vstd::prelude::*;
use crate::consts::TABSTER_ATTRIBUTE_NAME;
use crate::types::TabsterAttributeProps;

verus! {

/// The attribute's name paired with its serialized value.
pub fn get_tabster_attribute(json: String) -> (r: (String, String))
    ensures
        r.0@ == "data-tabster"@,
        r.1 == json,
{
    let name = TABSTER_ATTRIBUTE_NAME.to_owned();
    proof {
        reveal_strlit("data-tabster");
    }
    (name, json)
}

/// Re-setting the attribute replaces the whole object: keys that the new
/// props leave out are removed.
pub fn merge_tabster_props(props: &mut TabsterAttributeProps, new_props: TabsterAttributeProps)
    ensures
        *final(props) == new_props,
{
    *props = new_props;
}

} // verus!
