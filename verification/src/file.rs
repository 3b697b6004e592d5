//! The decoded tables of one image that other tables refer to by index.

use vstd::prelude::*;
use crate::rtti::tables::{
    SMXRTTIClassDefTable, SMXRTTIEnumStructTable, SMXRTTIEnumTable, SMXRTTIMethodTable,
    SMXRTTITypedefTable, SMXRTTITypesetTable,
};

use crate::sections::debug::SMXDebugMethods;

verus! {

/// The names that a type signature may refer to, by kind and index.
pub struct TypeNames {
    pub enums: Seq<Seq<char>>,
    pub typedefs: Seq<Seq<char>>,
    pub typesets: Seq<Seq<char>>,
    pub classdefs: Seq<Seq<char>>,
    pub enum_structs: Seq<Seq<char>>,
}

/// The tables of an image that type signatures and the lookup of local
/// variables refer to. A table that the image lacks is `None`: it has no row.
#[derive(Debug)]
pub struct SMXFile {
    pub rtti_enums: Option<SMXRTTIEnumTable>,
    pub rtti_typedefs: Option<SMXRTTITypedefTable>,
    pub rtti_typesets: Option<SMXRTTITypesetTable>,
    pub rtti_classdefs: Option<SMXRTTIClassDefTable>,
    pub rtti_enum_structs: Option<SMXRTTIEnumStructTable>,
    pub rtti_methods: Option<SMXRTTIMethodTable>,
    pub debug_methods: Option<SMXDebugMethods>,
}

impl SMXFile {
    /// The names that the tables give to type signatures.
    pub open spec fn type_names(&self) -> TypeNames {
        TypeNames {
            enums: match self.rtti_enums {
                Some(t) => t.names(),
                None => Seq::empty(),
            },
            typedefs: match self.rtti_typedefs {
                Some(t) => t.names(),
                None => Seq::empty(),
            },
            typesets: match self.rtti_typesets {
                Some(t) => t.names(),
                None => Seq::empty(),
            },
            classdefs: match self.rtti_classdefs {
                Some(t) => t.names(),
                None => Seq::empty(),
            },
            enum_structs: match self.rtti_enum_structs {
                Some(t) => t.names(),
                None => Seq::empty(),
            },
        }
    }

    /// An image without any of the tables.
    pub fn new() -> (f: Self)
        ensures
            f.rtti_enums is None,
            f.rtti_typedefs is None,
            f.rtti_typesets is None,
            f.rtti_classdefs is None,
            f.rtti_enum_structs is None,
            f.rtti_methods is None,
            f.debug_methods is None,
    {
        SMXFile {
            rtti_enums: None,
            rtti_typedefs: None,
            rtti_typesets: None,
            rtti_classdefs: None,
            rtti_enum_structs: None,
            rtti_methods: None,
            debug_methods: None,
        }
    }
}

} // verus!
