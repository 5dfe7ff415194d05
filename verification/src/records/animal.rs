use vstd::prelude::*;
use crate::record::Record;
use crate::wire::{
    lemma_text_parse, lemma_u32_parse, lemma_u64_parse, put_text, put_u32, put_u64, text_parse,
    text_wire, u32_parse, u32_wire, u64_parse, u64_wire, Reader,
};

verus! {

/// An animal received at a slaughterhouse.
///
/// `weight` is in grams.
#[derive(Debug, PartialEq, Eq)]
pub struct Animal {
    pub id: u64,
    pub slaughterhouse_id: u64,
    pub tag_number: String,
    pub species: String,
    pub weight: u32,
    pub arrival_time: u64,
    pub status: String,
}

/// What a `Animal` holds, as mathematical values.
pub struct AnimalView {
    pub id: u64,
    pub slaughterhouse_id: u64,
    pub tag_number: Seq<char>,
    pub species: Seq<char>,
    pub weight: u32,
    pub arrival_time: u64,
    pub status: Seq<char>,
}

impl View for Animal {
    type V = AnimalView;

    open spec fn view(&self) -> AnimalView {
        AnimalView {
            id: self.id,
            slaughterhouse_id: self.slaughterhouse_id,
            tag_number: self.tag_number@,
            species: self.species@,
            weight: self.weight,
            arrival_time: self.arrival_time,
            status: self.status@,
        }
    }
}

/// A `Animal` is written as its fields in the order of their declaration.
impl Record for Animal {
    open spec fn id_of(v: AnimalView) -> u64 {
        v.id
    }

    open spec fn encoding(v: AnimalView) -> Seq<u8> {
        u64_wire(v.id)
            + (u64_wire(v.slaughterhouse_id)
            + (text_wire(v.tag_number)
            + (text_wire(v.species)
            + (u32_wire(v.weight)
            + (u64_wire(v.arrival_time)
            + text_wire(v.status))))))
    }

    open spec fn decoding(bytes: Seq<u8>) -> Option<AnimalView> {
        match u64_parse(bytes) {
            Some((id, s1)) => match u64_parse(s1) {
                Some((slaughterhouse_id, s2)) => match text_parse(s2) {
                    Some((tag_number, s3)) => match text_parse(s3) {
                        Some((species, s4)) => match u32_parse(s4) {
                            Some((weight, s5)) => match u64_parse(s5) {
                                Some((arrival_time, s6)) => match text_parse(s6) {
                                    Some((status, s7)) => if s7.len() == 0 {
                                        Some(
                                            AnimalView {
                                                id,
                                                slaughterhouse_id,
                                                tag_number,
                                                species,
                                                weight,
                                                arrival_time,
                                                status,
                                            },
                                        )
                                    } else {
                                        None
                                    },
                                    None => None,
                                },
                                None => None,
                            },
                            None => None,
                        },
                        None => None,
                    },
                    None => None,
                },
                None => None,
            },
            None => None,
        }
    }

    proof fn lemma_round_trip(v: AnimalView) {
        let t7 = Seq::<u8>::empty();
        let t6 = text_wire(v.status) + t7;
        let t5 = u64_wire(v.arrival_time) + t6;
        let t4 = u32_wire(v.weight) + t5;
        let t3 = text_wire(v.species) + t4;
        let t2 = text_wire(v.tag_number) + t3;
        let t1 = u64_wire(v.slaughterhouse_id) + t2;
        assert(t6 =~= text_wire(v.status));
        lemma_u64_parse(v.id, t1);
        lemma_u64_parse(v.slaughterhouse_id, t2);
        lemma_text_parse(v.tag_number, t3);
        lemma_text_parse(v.species, t4);
        lemma_u32_parse(v.weight, t5);
        lemma_u64_parse(v.arrival_time, t6);
        lemma_text_parse(v.status, t7);
    }

    fn id(&self) -> (id: u64) {
        self.id
    }

    fn encode(&self) -> (bytes: Vec<u8>) {
        let mut buf: Vec<u8> = Vec::new();
        put_u64(&mut buf, self.id);
        put_u64(&mut buf, self.slaughterhouse_id);
        put_text(&mut buf, &self.tag_number);
        put_text(&mut buf, &self.species);
        put_u32(&mut buf, self.weight);
        put_u64(&mut buf, self.arrival_time);
        put_text(&mut buf, &self.status);
        assert(buf@ =~= Self::encoding(self@));
        buf
    }

    fn decode(bytes: &[u8]) -> (r: Option<Self>) {
        let mut rd = Reader::new(bytes);
        let id = rd.u64()?;
        let slaughterhouse_id = rd.u64()?;
        let tag_number = rd.text()?;
        let species = rd.text()?;
        let weight = rd.u32()?;
        let arrival_time = rd.u64()?;
        let status = rd.text()?;
        if !rd.is_done() {
            return None;
        }
        Some(
            Animal {
                id,
                slaughterhouse_id,
                tag_number,
                species,
                weight,
                arrival_time,
                status,
            },
        )
    }

    fn duplicate(&self) -> (copy: Self) {
        Animal {
            id: self.id,
            slaughterhouse_id: self.slaughterhouse_id,
            tag_number: self.tag_number.clone(),
            species: self.species.clone(),
            weight: self.weight,
            arrival_time: self.arrival_time,
            status: self.status.clone(),
        }
    }
}

} // verus!
