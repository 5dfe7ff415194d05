use vstd::prelude::*;
use crate::record::Record;
use crate::wire::{
    lemma_text_parse, lemma_u32_parse, lemma_u64_parse, put_text, put_u32, put_u64, text_parse,
    text_wire, u32_parse, u32_wire, u64_parse, u64_wire, Reader,
};

verus! {

/// A cut of meat put in stock.
///
/// `weight` is in grams and `price_per_kg` in thousandths of the currency
/// unit, so that `total_price`, their product, is an exact amount of money
/// in millionths of the unit.
#[derive(Debug, PartialEq, Eq)]
pub struct MeatProduct {
    pub id: u64,
    pub animal_id: u64,
    pub slaughterhouse_id: u64,
    pub product_type: String,
    pub weight: u32,
    pub price_per_kg: u32,
    pub total_price: u64,
    pub status: String,
    pub created_at: u64,
}

/// What a `MeatProduct` holds, as mathematical values.
pub struct MeatProductView {
    pub id: u64,
    pub animal_id: u64,
    pub slaughterhouse_id: u64,
    pub product_type: Seq<char>,
    pub weight: u32,
    pub price_per_kg: u32,
    pub total_price: u64,
    pub status: Seq<char>,
    pub created_at: u64,
}

impl View for MeatProduct {
    type V = MeatProductView;

    open spec fn view(&self) -> MeatProductView {
        MeatProductView {
            id: self.id,
            animal_id: self.animal_id,
            slaughterhouse_id: self.slaughterhouse_id,
            product_type: self.product_type@,
            weight: self.weight,
            price_per_kg: self.price_per_kg,
            total_price: self.total_price,
            status: self.status@,
            created_at: self.created_at,
        }
    }
}

/// A `MeatProduct` is written as its fields in the order of their declaration.
impl Record for MeatProduct {
    open spec fn id_of(v: MeatProductView) -> u64 {
        v.id
    }

    open spec fn encoding(v: MeatProductView) -> Seq<u8> {
        u64_wire(v.id)
            + (u64_wire(v.animal_id)
            + (u64_wire(v.slaughterhouse_id)
            + (text_wire(v.product_type)
            + (u32_wire(v.weight)
            + (u32_wire(v.price_per_kg)
            + (u64_wire(v.total_price)
            + (text_wire(v.status)
            + u64_wire(v.created_at))))))))
    }

    open spec fn decoding(bytes: Seq<u8>) -> Option<MeatProductView> {
        match u64_parse(bytes) {
            Some((id, s1)) => match u64_parse(s1) {
                Some((animal_id, s2)) => match u64_parse(s2) {
                    Some((slaughterhouse_id, s3)) => match text_parse(s3) {
                        Some((product_type, s4)) => match u32_parse(s4) {
                            Some((weight, s5)) => match u32_parse(s5) {
                                Some((price_per_kg, s6)) => match u64_parse(s6) {
                                    Some((total_price, s7)) => match text_parse(s7) {
                                        Some((status, s8)) => match u64_parse(s8) {
                                            Some((created_at, s9)) => if s9.len() == 0 {
                                                Some(
                                                    MeatProductView {
                                                        id,
                                                        animal_id,
                                                        slaughterhouse_id,
                                                        product_type,
                                                        weight,
                                                        price_per_kg,
                                                        total_price,
                                                        status,
                                                        created_at,
                                                    },
                                                )
                                            } else {
                                                None
                                            },
                                            None => None,
                                        },
                                        None => None,
                                    },
                                    None => None,
                                },
                                None => None,
                            },
                            None => None,
                        },
                        None => None,
                    },
                    None => None,
                },
                None => None,
            },
            None => None,
        }
    }

    proof fn lemma_round_trip(v: MeatProductView) {
        let t9 = Seq::<u8>::empty();
        let t8 = u64_wire(v.created_at) + t9;
        let t7 = text_wire(v.status) + t8;
        let t6 = u64_wire(v.total_price) + t7;
        let t5 = u32_wire(v.price_per_kg) + t6;
        let t4 = u32_wire(v.weight) + t5;
        let t3 = text_wire(v.product_type) + t4;
        let t2 = u64_wire(v.slaughterhouse_id) + t3;
        let t1 = u64_wire(v.animal_id) + t2;
        assert(t8 =~= u64_wire(v.created_at));
        lemma_u64_parse(v.id, t1);
        lemma_u64_parse(v.animal_id, t2);
        lemma_u64_parse(v.slaughterhouse_id, t3);
        lemma_text_parse(v.product_type, t4);
        lemma_u32_parse(v.weight, t5);
        lemma_u32_parse(v.price_per_kg, t6);
        lemma_u64_parse(v.total_price, t7);
        lemma_text_parse(v.status, t8);
        lemma_u64_parse(v.created_at, t9);
    }

    fn id(&self) -> (id: u64) {
        self.id
    }

    fn encode(&self) -> (bytes: Vec<u8>) {
        let mut buf: Vec<u8> = Vec::new();
        put_u64(&mut buf, self.id);
        put_u64(&mut buf, self.animal_id);
        put_u64(&mut buf, self.slaughterhouse_id);
        put_text(&mut buf, &self.product_type);
        put_u32(&mut buf, self.weight);
        put_u32(&mut buf, self.price_per_kg);
        put_u64(&mut buf, self.total_price);
        put_text(&mut buf, &self.status);
        put_u64(&mut buf, self.created_at);
        assert(buf@ =~= Self::encoding(self@));
        buf
    }

    fn decode(bytes: &[u8]) -> (r: Option<Self>) {
        let mut rd = Reader::new(bytes);
        let id = rd.u64()?;
        let animal_id = rd.u64()?;
        let slaughterhouse_id = rd.u64()?;
        let product_type = rd.text()?;
        let weight = rd.u32()?;
        let price_per_kg = rd.u32()?;
        let total_price = rd.u64()?;
        let status = rd.text()?;
        let created_at = rd.u64()?;
        if !rd.is_done() {
            return None;
        }
        Some(
            MeatProduct {
                id,
                animal_id,
                slaughterhouse_id,
                product_type,
                weight,
                price_per_kg,
                total_price,
                status,
                created_at,
            },
        )
    }

    fn duplicate(&self) -> (copy: Self) {
        MeatProduct {
            id: self.id,
            animal_id: self.animal_id,
            slaughterhouse_id: self.slaughterhouse_id,
            product_type: self.product_type.clone(),
            weight: self.weight,
            price_per_kg: self.price_per_kg,
            total_price: self.total_price,
            status: self.status.clone(),
            created_at: self.created_at,
        }
    }
}

} // verus!
