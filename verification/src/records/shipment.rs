use vstd::prelude::*;
use crate::record::Record;
use crate::wire::{
    ids_parse, ids_wire, lemma_ids_body_len, lemma_ids_parse, lemma_readings_body_len,
    lemma_readings_parse, lemma_text_parse, lemma_u64_parse, put_ids, put_readings, put_text,
    put_u64, readings_parse, readings_wire, text_parse, text_wire, u64_parse, u64_wire, Reader,
};

verus! {

/// Products sent to a destination.
///
/// `temperature_log` holds readings in thousandths of a degree.
#[derive(Debug, PartialEq, Eq)]
pub struct Shipment {
    pub id: u64,
    pub slaughterhouse_id: u64,
    pub product_ids: Vec<u64>,
    pub destination: String,
    pub shipping_date: u64,
    pub expected_delivery: u64,
    pub temperature_log: Vec<i32>,
    pub status: String,
    pub tracking_number: String,
}

/// What a `Shipment` holds, as mathematical values.
pub struct ShipmentView {
    pub id: u64,
    pub slaughterhouse_id: u64,
    pub product_ids: Seq<u64>,
    pub destination: Seq<char>,
    pub shipping_date: u64,
    pub expected_delivery: u64,
    pub temperature_log: Seq<i32>,
    pub status: Seq<char>,
    pub tracking_number: Seq<char>,
}

impl View for Shipment {
    type V = ShipmentView;

    open spec fn view(&self) -> ShipmentView {
        ShipmentView {
            id: self.id,
            slaughterhouse_id: self.slaughterhouse_id,
            product_ids: self.product_ids@,
            destination: self.destination@,
            shipping_date: self.shipping_date,
            expected_delivery: self.expected_delivery,
            temperature_log: self.temperature_log@,
            status: self.status@,
            tracking_number: self.tracking_number@,
        }
    }
}

/// A `Shipment` is written as its fields in the order of their declaration.
impl Record for Shipment {
    open spec fn id_of(v: ShipmentView) -> u64 {
        v.id
    }

    open spec fn encoding(v: ShipmentView) -> Seq<u8> {
        u64_wire(v.id)
            + (u64_wire(v.slaughterhouse_id)
            + (ids_wire(v.product_ids)
            + (text_wire(v.destination)
            + (u64_wire(v.shipping_date)
            + (u64_wire(v.expected_delivery)
            + (readings_wire(v.temperature_log)
            + (text_wire(v.status)
            + text_wire(v.tracking_number))))))))
    }

    open spec fn decoding(bytes: Seq<u8>) -> Option<ShipmentView> {
        match u64_parse(bytes) {
            Some((id, s1)) => match u64_parse(s1) {
                Some((slaughterhouse_id, s2)) => match ids_parse(s2) {
                    Some((product_ids, s3)) => match text_parse(s3) {
                        Some((destination, s4)) => match u64_parse(s4) {
                            Some((shipping_date, s5)) => match u64_parse(s5) {
                                Some((expected_delivery, s6)) => match readings_parse(s6) {
                                    Some((temperature_log, s7)) => match text_parse(s7) {
                                        Some((status, s8)) => match text_parse(s8) {
                                            Some((tracking_number, s9)) => if s9.len() == 0 {
                                                Some(
                                                    ShipmentView {
                                                        id,
                                                        slaughterhouse_id,
                                                        product_ids,
                                                        destination,
                                                        shipping_date,
                                                        expected_delivery,
                                                        temperature_log,
                                                        status,
                                                        tracking_number,
                                                    },
                                                )
                                            } else {
                                                None
                                            },
                                            None => None,
                                        },
                                        None => None,
                                    },
                                    None => None,
                                },
                                None => None,
                            },
                            None => None,
                        },
                        None => None,
                    },
                    None => None,
                },
                None => None,
            },
            None => None,
        }
    }

    proof fn lemma_round_trip(v: ShipmentView) {
        let t9 = Seq::<u8>::empty();
        let t8 = text_wire(v.tracking_number) + t9;
        let t7 = text_wire(v.status) + t8;
        let t6 = readings_wire(v.temperature_log) + t7;
        let t5 = u64_wire(v.expected_delivery) + t6;
        let t4 = u64_wire(v.shipping_date) + t5;
        let t3 = text_wire(v.destination) + t4;
        let t2 = ids_wire(v.product_ids) + t3;
        let t1 = u64_wire(v.slaughterhouse_id) + t2;
        assert(t8 =~= text_wire(v.tracking_number));
        lemma_ids_body_len(v.product_ids);
        lemma_readings_body_len(v.temperature_log);
        lemma_u64_parse(v.id, t1);
        lemma_u64_parse(v.slaughterhouse_id, t2);
        lemma_ids_parse(v.product_ids, t3);
        lemma_text_parse(v.destination, t4);
        lemma_u64_parse(v.shipping_date, t5);
        lemma_u64_parse(v.expected_delivery, t6);
        lemma_readings_parse(v.temperature_log, t7);
        lemma_text_parse(v.status, t8);
        lemma_text_parse(v.tracking_number, t9);
    }

    fn id(&self) -> (id: u64) {
        self.id
    }

    fn encode(&self) -> (bytes: Vec<u8>) {
        let mut buf: Vec<u8> = Vec::new();
        put_u64(&mut buf, self.id);
        put_u64(&mut buf, self.slaughterhouse_id);
        put_ids(&mut buf, &self.product_ids);
        put_text(&mut buf, &self.destination);
        put_u64(&mut buf, self.shipping_date);
        put_u64(&mut buf, self.expected_delivery);
        put_readings(&mut buf, &self.temperature_log);
        put_text(&mut buf, &self.status);
        put_text(&mut buf, &self.tracking_number);
        assert(buf@ =~= Self::encoding(self@));
        buf
    }

    fn decode(bytes: &[u8]) -> (r: Option<Self>) {
        let mut rd = Reader::new(bytes);
        let id = rd.u64()?;
        let slaughterhouse_id = rd.u64()?;
        let product_ids = rd.ids()?;
        let destination = rd.text()?;
        let shipping_date = rd.u64()?;
        let expected_delivery = rd.u64()?;
        let temperature_log = rd.readings()?;
        let status = rd.text()?;
        let tracking_number = rd.text()?;
        if !rd.is_done() {
            return None;
        }
        Some(
            Shipment {
                id,
                slaughterhouse_id,
                product_ids,
                destination,
                shipping_date,
                expected_delivery,
                temperature_log,
                status,
                tracking_number,
            },
        )
    }

    fn duplicate(&self) -> (copy: Self) {
        Shipment {
            id: self.id,
            slaughterhouse_id: self.slaughterhouse_id,
            product_ids: self.product_ids.clone(),
            destination: self.destination.clone(),
            shipping_date: self.shipping_date,
            expected_delivery: self.expected_delivery,
            temperature_log: self.temperature_log.clone(),
            status: self.status.clone(),
            tracking_number: self.tracking_number.clone(),
        }
    }
}

} // verus!
