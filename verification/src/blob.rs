//! Tables of the world and the serialized blobs that carry them.

use vstd::prelude::*;

verus! {

/// One table of the world.
#[derive(Debug, Clone, Copy, PartialEq, Eq, Structural)]
pub enum TableIdent {
    Blueprints,
    Grids,
    Protos,
    Parts,
    Thrusters,
    Computers,
    Asteroids,
    Chunks,
    Tiles,
    Inventories,
    Machines,
    Pipes,
    Lights,
    Excavators,
}

/// The name of a table, as it is shown to people.
pub open spec fn table_name(t: TableIdent) -> Seq<char> {
    match t {
        TableIdent::Blueprints => "Blueprints"@,
        TableIdent::Grids => "Grids"@,
        TableIdent::Protos => "Protos"@,
        TableIdent::Parts => "Parts"@,
        TableIdent::Thrusters => "Thrusters"@,
        TableIdent::Computers => "Computers"@,
        TableIdent::Asteroids => "Asteroids"@,
        TableIdent::Chunks => "Chunks"@,
        TableIdent::Tiles => "Tiles"@,
        TableIdent::Inventories => "Inventories"@,
        TableIdent::Machines => "Machines"@,
        TableIdent::Pipes => "Pipes"@,
        TableIdent::Lights => "Lights"@,
        TableIdent::Excavators => "Excavators"@,
    }
}

/// Every table, in declaration order.
pub open spec fn all_tables() -> Seq<TableIdent> {
    seq![
        TableIdent::Blueprints,
        TableIdent::Grids,
        TableIdent::Protos,
        TableIdent::Parts,
        TableIdent::Thrusters,
        TableIdent::Computers,
        TableIdent::Asteroids,
        TableIdent::Chunks,
        TableIdent::Tiles,
        TableIdent::Inventories,
        TableIdent::Machines,
        TableIdent::Pipes,
        TableIdent::Lights,
        TableIdent::Excavators,
    ]
}

impl TableIdent {
    /// Every table, in declaration order.
    pub fn all() -> (r: [TableIdent; 14])
        ensures
            r@ == all_tables(),
    {
        [
            TableIdent::Blueprints,
            TableIdent::Grids,
            TableIdent::Protos,
            TableIdent::Parts,
            TableIdent::Thrusters,
            TableIdent::Computers,
            TableIdent::Asteroids,
            TableIdent::Chunks,
            TableIdent::Tiles,
            TableIdent::Inventories,
            TableIdent::Machines,
            TableIdent::Pipes,
            TableIdent::Lights,
            TableIdent::Excavators,
        ]
    }

    /// The name of this table, as it is shown to people.
    pub fn name(&self) -> (s: &'static str)
        ensures
            s@ == table_name(*self),
    {
        match self {
            TableIdent::Blueprints => "Blueprints",
            TableIdent::Grids => "Grids",
            TableIdent::Protos => "Protos",
            TableIdent::Parts => "Parts",
            TableIdent::Thrusters => "Thrusters",
            TableIdent::Computers => "Computers",
            TableIdent::Asteroids => "Asteroids",
            TableIdent::Chunks => "Chunks",
            TableIdent::Tiles => "Tiles",
            TableIdent::Inventories => "Inventories",
            TableIdent::Machines => "Machines",
            TableIdent::Pipes => "Pipes",
            TableIdent::Lights => "Lights",
            TableIdent::Excavators => "Excavators",
        }
    }
}

/// The serialized contents of one table.
#[derive(Debug, Clone)]
pub struct Blob {
    data: Vec<u8>,
    ident: TableIdent,
}

impl Blob {
    /// The bytes of a table, tagged with the table they belong to.
    pub fn new(data: Vec<u8>, ident: TableIdent) -> (b: Self)
        ensures
            b.spec_data() == data@,
            b.spec_table() == ident,
    {
        Blob { data, ident }
    }

    /// The bytes of this blob.
    pub closed spec fn spec_data(&self) -> Seq<u8> {
        self.data@
    }

    /// The table this blob belongs to.
    pub closed spec fn spec_table(&self) -> TableIdent {
        self.ident
    }

    /// The bytes of this blob.
    pub fn data(&self) -> (d: &[u8])
        ensures
            d@ == self.spec_data(),
    {
        self.data.as_slice()
    }

    /// Gives up the blob for its bytes.
    pub fn consume(self) -> (d: Vec<u8>)
        ensures
            d@ == self.spec_data(),
    {
        self.data
    }

    /// The table this blob belongs to.
    pub fn table(&self) -> (t: TableIdent)
        ensures
            t == self.spec_table(),
    {
        self.ident
    }
}

} // verus!
