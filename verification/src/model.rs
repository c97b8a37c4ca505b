//! The material model: what a wire and a bead are, and what they share.

use vstd::prelude::*;

verus! {

/// Which kind of material a record declares itself to be.
#[derive(Debug, Clone, Copy, PartialEq, Eq, Structural)]
pub enum MaterialType {
    WIRE,
    BEAD,
}

/// How the metal of a wire is applied.
#[derive(Debug, Clone, Copy, PartialEq, Eq, Structural)]
pub enum WireType {
    FULL,
    FILLED,
    PLATED,
}

/// The metal a wire is made of.
#[derive(Debug, Clone, Copy, PartialEq, Eq, Structural)]
pub enum MetalType {
    BRASS,
    COPPER,
    SILVER,
    GOLD,
}

/// The attributes every material has, whatever its kind.
#[derive(Debug, Clone, PartialEq, Eq)]
pub struct BaseMaterialType {
    pub name: String,
    pub brand: String,
    /// Millimetres.
    pub diameter: i32,
    pub purchase_url: String,
    pub material_type: MaterialType,
}

/// A length of wire.
#[derive(Debug, Clone, PartialEq, Eq)]
pub struct Wire {
    pub base_material_type: BaseMaterialType,
    pub wire_type: WireType,
    pub metal_type: MetalType,
    /// Millimetres.
    pub length: i32,
    /// In the currency's minor unit.
    pub price_per_meter: i32,
}

/// A lot of beads.
#[derive(Debug, Clone, PartialEq, Eq)]
pub struct Bead {
    pub base_material_type: BaseMaterialType,
    pub colour: String,
    pub quantity: i32,
}

/// One material record: exactly one of a wire or a bead.
#[derive(Debug, Clone, PartialEq, Eq)]
pub enum Material {
    Wire(Wire),
    Bead(Bead),
}

/// A design record. Its fields are free text that refers to other records by
/// name only.
#[derive(Debug, Clone, PartialEq, Eq)]
pub struct Design {
    material: String,
    price: String,
    name: String,
}

/// The mathematical value of a [`BaseMaterialType`].
pub struct BaseModel {
    pub name: Seq<char>,
    pub brand: Seq<char>,
    pub diameter: int,
    pub purchase_url: Seq<char>,
    pub material_type: MaterialType,
}

/// The mathematical value of a [`Wire`].
pub struct WireModel {
    pub base: BaseModel,
    pub wire_type: WireType,
    pub metal_type: MetalType,
    pub length: int,
    pub price_per_meter: int,
}

/// The mathematical value of a [`Bead`].
pub struct BeadModel {
    pub base: BaseModel,
    pub colour: Seq<char>,
    pub quantity: int,
}

/// The mathematical value of a [`Material`].
pub enum MaterialModel {
    Wire(WireModel),
    Bead(BeadModel),
}

/// The mathematical value of a [`Design`].
pub struct DesignModel {
    pub material: Seq<char>,
    pub price: Seq<char>,
    pub name: Seq<char>,
}

impl View for BaseMaterialType {
    type V = BaseModel;

    open spec fn view(&self) -> BaseModel {
        BaseModel {
            name: self.name@,
            brand: self.brand@,
            diameter: self.diameter as int,
            purchase_url: self.purchase_url@,
            material_type: self.material_type,
        }
    }
}

impl View for Wire {
    type V = WireModel;

    open spec fn view(&self) -> WireModel {
        WireModel {
            base: self.base_material_type@,
            wire_type: self.wire_type,
            metal_type: self.metal_type,
            length: self.length as int,
            price_per_meter: self.price_per_meter as int,
        }
    }
}

impl View for Bead {
    type V = BeadModel;

    open spec fn view(&self) -> BeadModel {
        BeadModel {
            base: self.base_material_type@,
            colour: self.colour@,
            quantity: self.quantity as int,
        }
    }
}

impl View for Material {
    type V = MaterialModel;

    open spec fn view(&self) -> MaterialModel {
        match self {
            Material::Wire(w) => MaterialModel::Wire(w@),
            Material::Bead(b) => MaterialModel::Bead(b@),
        }
    }
}

impl View for Design {
    type V = DesignModel;

    closed spec fn view(&self) -> DesignModel {
        DesignModel { material: self.material@, price: self.price@, name: self.name@ }
    }
}

impl MaterialModel {
    /// The attributes shared by both kinds.
    pub open spec fn base(self) -> BaseModel {
        match self {
            MaterialModel::Wire(w) => w.base,
            MaterialModel::Bead(b) => b.base,
        }
    }

    /// The kind that the value's own shape gives it.
    pub open spec fn kind(self) -> MaterialType {
        match self {
            MaterialModel::Wire(_) => MaterialType::WIRE,
            MaterialModel::Bead(_) => MaterialType::BEAD,
        }
    }

    /// The declared kind agrees with the shape.
    pub open spec fn kind_consistent(self) -> bool {
        self.base().material_type == self.kind()
    }

    /// A well-formed material: the declared kind agrees with the shape, the
    /// diameter and a wire's length are positive, a price or a quantity is
    /// not negative.
    pub open spec fn valid(self) -> bool {
        &&& self.kind_consistent()
        &&& self.base().diameter > 0
        &&& match self {
            MaterialModel::Wire(w) => w.length > 0 && w.price_per_meter >= 0,
            MaterialModel::Bead(b) => b.quantity >= 0,
        }
    }
}

impl Material {
    /// A wire of the given attributes, declared as a wire. `None` where the
    /// diameter or the length is not positive or the price is negative.
    pub fn wire(
        name: String,
        brand: String,
        diameter: i32,
        purchase_url: String,
        wire_type: WireType,
        metal_type: MetalType,
        length: i32,
        price_per_meter: i32,
    ) -> (made: Option<Material>)
        ensures
            made.is_some() == (diameter > 0 && length > 0 && price_per_meter >= 0),
            made.is_some() ==> made.unwrap()@.valid(),
            made.is_some() ==> made.unwrap()@ == MaterialModel::Wire(
                WireModel {
                    base: BaseModel {
                        name: name@,
                        brand: brand@,
                        diameter: diameter as int,
                        purchase_url: purchase_url@,
                        material_type: MaterialType::WIRE,
                    },
                    wire_type,
                    metal_type,
                    length: length as int,
                    price_per_meter: price_per_meter as int,
                },
            ),
    {
        if diameter > 0 && length > 0 && price_per_meter >= 0 {
            let base_material_type = BaseMaterialType {
                name,
                brand,
                diameter,
                purchase_url,
                material_type: MaterialType::WIRE,
            };
            Some(
                Material::Wire(
                    Wire { base_material_type, wire_type, metal_type, length, price_per_meter },
                ),
            )
        } else {
            None
        }
    }

    /// A lot of beads of the given attributes, declared as beads. `None`
    /// where the diameter is not positive or the quantity is negative.
    pub fn bead(
        name: String,
        brand: String,
        diameter: i32,
        purchase_url: String,
        colour: String,
        quantity: i32,
    ) -> (made: Option<Material>)
        ensures
            made.is_some() == (diameter > 0 && quantity >= 0),
            made.is_some() ==> made.unwrap()@.valid(),
            made.is_some() ==> made.unwrap()@ == MaterialModel::Bead(
                BeadModel {
                    base: BaseModel {
                        name: name@,
                        brand: brand@,
                        diameter: diameter as int,
                        purchase_url: purchase_url@,
                        material_type: MaterialType::BEAD,
                    },
                    colour: colour@,
                    quantity: quantity as int,
                },
            ),
    {
        if diameter > 0 && quantity >= 0 {
            let base_material_type = BaseMaterialType {
                name,
                brand,
                diameter,
                purchase_url,
                material_type: MaterialType::BEAD,
            };
            Some(Material::Bead(Bead { base_material_type, colour, quantity }))
        } else {
            None
        }
    }

    /// The attributes shared by both kinds.
    pub fn base(&self) -> (base: &BaseMaterialType)
        ensures
            base@ == self@.base(),
    {
        match self {
            Material::Wire(w) => &w.base_material_type,
            Material::Bead(b) => &b.base_material_type,
        }
    }

    /// The kind that the value's own shape gives it.
    pub fn kind(&self) -> (kind: MaterialType)
        ensures
            kind == self@.kind(),
    {
        match self {
            Material::Wire(_) => MaterialType::WIRE,
            Material::Bead(_) => MaterialType::BEAD,
        }
    }

    /// Whether the material is well formed.
    pub fn is_valid(&self) -> (ok: bool)
        ensures
            ok == self@.valid(),
    {
        match self {
            Material::Wire(w) => {
                w.base_material_type.material_type == MaterialType::WIRE
                    && w.base_material_type.diameter > 0 && w.length > 0 && w.price_per_meter >= 0
            },
            Material::Bead(b) => {
                b.base_material_type.material_type == MaterialType::BEAD
                    && b.base_material_type.diameter > 0 && b.quantity >= 0
            },
        }
    }
}

impl Design {
    /// A design made of its three texts.
    pub fn new(material: String, price: String, name: String) -> (design: Design)
        ensures
            design@ == (DesignModel { material: material@, price: price@, name: name@ }),
    {
        Design { material, price, name }
    }

    /// The material the design is made of.
    pub fn material(&self) -> (text: &String)
        ensures
            text@ == self@.material,
    {
        &self.material
    }

    /// The price of the design.
    pub fn price(&self) -> (text: &String)
        ensures
            text@ == self@.price,
    {
        &self.price
    }

    /// The name of the design.
    pub fn name(&self) -> (text: &String)
        ensures
            text@ == self@.name,
    {
        &self.name
    }
}

} // verus!
