use vstd::prelude::*;
use crate::record::Record;
use crate::wire::{
    lemma_text_parse, lemma_u64_parse, put_text, put_u64, text_parse, text_wire, u64_parse,
    u64_wire, Reader,
};

verus! {

/// Waste disposed of by a slaughterhouse.
///
/// `quantity` is in grams and `cost` in millionths of the currency unit.
#[derive(Debug, PartialEq, Eq)]
pub struct WasteRecord {
    pub id: u64,
    pub slaughterhouse_id: u64,
    pub waste_type: String,
    pub quantity: u64,
    pub disposal_method: String,
    pub disposal_date: u64,
    pub handled_by: String,
    pub cost: u64,
}

/// What a `WasteRecord` holds, as mathematical values.
pub struct WasteRecordView {
    pub id: u64,
    pub slaughterhouse_id: u64,
    pub waste_type: Seq<char>,
    pub quantity: u64,
    pub disposal_method: Seq<char>,
    pub disposal_date: u64,
    pub handled_by: Seq<char>,
    pub cost: u64,
}

impl View for WasteRecord {
    type V = WasteRecordView;

    open spec fn view(&self) -> WasteRecordView {
        WasteRecordView {
            id: self.id,
            slaughterhouse_id: self.slaughterhouse_id,
            waste_type: self.waste_type@,
            quantity: self.quantity,
            disposal_method: self.disposal_method@,
            disposal_date: self.disposal_date,
            handled_by: self.handled_by@,
            cost: self.cost,
        }
    }
}

/// A `WasteRecord` is written as its fields in the order of their declaration.
impl Record for WasteRecord {
    open spec fn id_of(v: WasteRecordView) -> u64 {
        v.id
    }

    open spec fn encoding(v: WasteRecordView) -> Seq<u8> {
        u64_wire(v.id)
            + (u64_wire(v.slaughterhouse_id)
            + (text_wire(v.waste_type)
            + (u64_wire(v.quantity)
            + (text_wire(v.disposal_method)
            + (u64_wire(v.disposal_date)
            + (text_wire(v.handled_by)
            + u64_wire(v.cost)))))))
    }

    open spec fn decoding(bytes: Seq<u8>) -> Option<WasteRecordView> {
        match u64_parse(bytes) {
            Some((id, s1)) => match u64_parse(s1) {
                Some((slaughterhouse_id, s2)) => match text_parse(s2) {
                    Some((waste_type, s3)) => match u64_parse(s3) {
                        Some((quantity, s4)) => match text_parse(s4) {
                            Some((disposal_method, s5)) => match u64_parse(s5) {
                                Some((disposal_date, s6)) => match text_parse(s6) {
                                    Some((handled_by, s7)) => match u64_parse(s7) {
                                        Some((cost, s8)) => if s8.len() == 0 {
                                            Some(
                                                WasteRecordView {
                                                    id,
                                                    slaughterhouse_id,
                                                    waste_type,
                                                    quantity,
                                                    disposal_method,
                                                    disposal_date,
                                                    handled_by,
                                                    cost,
                                                },
                                            )
                                        } else {
                                            None
                                        },
                                        None => None,
                                    },
                                    None => None,
                                },
                                None => None,
                            },
                            None => None,
                        },
                        None => None,
                    },
                    None => None,
                },
                None => None,
            },
            None => None,
        }
    }

    proof fn lemma_round_trip(v: WasteRecordView) {
        let t8 = Seq::<u8>::empty();
        let t7 = u64_wire(v.cost) + t8;
        let t6 = text_wire(v.handled_by) + t7;
        let t5 = u64_wire(v.disposal_date) + t6;
        let t4 = text_wire(v.disposal_method) + t5;
        let t3 = u64_wire(v.quantity) + t4;
        let t2 = text_wire(v.waste_type) + t3;
        let t1 = u64_wire(v.slaughterhouse_id) + t2;
        assert(t7 =~= u64_wire(v.cost));
        lemma_u64_parse(v.id, t1);
        lemma_u64_parse(v.slaughterhouse_id, t2);
        lemma_text_parse(v.waste_type, t3);
        lemma_u64_parse(v.quantity, t4);
        lemma_text_parse(v.disposal_method, t5);
        lemma_u64_parse(v.disposal_date, t6);
        lemma_text_parse(v.handled_by, t7);
        lemma_u64_parse(v.cost, t8);
    }

    fn id(&self) -> (id: u64) {
        self.id
    }

    fn encode(&self) -> (bytes: Vec<u8>) {
        let mut buf: Vec<u8> = Vec::new();
        put_u64(&mut buf, self.id);
        put_u64(&mut buf, self.slaughterhouse_id);
        put_text(&mut buf, &self.waste_type);
        put_u64(&mut buf, self.quantity);
        put_text(&mut buf, &self.disposal_method);
        put_u64(&mut buf, self.disposal_date);
        put_text(&mut buf, &self.handled_by);
        put_u64(&mut buf, self.cost);
        assert(buf@ =~= Self::encoding(self@));
        buf
    }

    fn decode(bytes: &[u8]) -> (r: Option<Self>) {
        let mut rd = Reader::new(bytes);
        let id = rd.u64()?;
        let slaughterhouse_id = rd.u64()?;
        let waste_type = rd.text()?;
        let quantity = rd.u64()?;
        let disposal_method = rd.text()?;
        let disposal_date = rd.u64()?;
        let handled_by = rd.text()?;
        let cost = rd.u64()?;
        if !rd.is_done() {
            return None;
        }
        Some(
            WasteRecord {
                id,
                slaughterhouse_id,
                waste_type,
                quantity,
                disposal_method,
                disposal_date,
                handled_by,
                cost,
            },
        )
    }

    fn duplicate(&self) -> (copy: Self) {
        WasteRecord {
            id: self.id,
            slaughterhouse_id: self.slaughterhouse_id,
            waste_type: self.waste_type.clone(),
            quantity: self.quantity,
            disposal_method: self.disposal_method.clone(),
            disposal_date: self.disposal_date,
            handled_by: self.handled_by.clone(),
            cost: self.cost,
        }
    }
}

} // verus!
