use vstd::prelude::*;
use crate::record::Record;
use crate::wire::{
    lemma_text_parse, lemma_u64_parse, put_text, put_u64, text_parse, text_wire, u64_parse,
    u64_wire, Reader,
};

verus! {

/// Money spent by a slaughterhouse.
///
/// `amount` is in millionths of the currency unit.
#[derive(Debug, PartialEq, Eq)]
pub struct Expense {
    pub id: u64,
    pub slaughterhouse_id: u64,
    pub date: u64,
    pub category: String,
    pub amount: u64,
    pub description: String,
}

/// What a `Expense` holds, as mathematical values.
pub struct ExpenseView {
    pub id: u64,
    pub slaughterhouse_id: u64,
    pub date: u64,
    pub category: Seq<char>,
    pub amount: u64,
    pub description: Seq<char>,
}

impl View for Expense {
    type V = ExpenseView;

    open spec fn view(&self) -> ExpenseView {
        ExpenseView {
            id: self.id,
            slaughterhouse_id: self.slaughterhouse_id,
            date: self.date,
            category: self.category@,
            amount: self.amount,
            description: self.description@,
        }
    }
}

/// A `Expense` is written as its fields in the order of their declaration.
impl Record for Expense {
    open spec fn id_of(v: ExpenseView) -> u64 {
        v.id
    }

    open spec fn encoding(v: ExpenseView) -> Seq<u8> {
        u64_wire(v.id)
            + (u64_wire(v.slaughterhouse_id)
            + (u64_wire(v.date)
            + (text_wire(v.category)
            + (u64_wire(v.amount)
            + text_wire(v.description)))))
    }

    open spec fn decoding(bytes: Seq<u8>) -> Option<ExpenseView> {
        match u64_parse(bytes) {
            Some((id, s1)) => match u64_parse(s1) {
                Some((slaughterhouse_id, s2)) => match u64_parse(s2) {
                    Some((date, s3)) => match text_parse(s3) {
                        Some((category, s4)) => match u64_parse(s4) {
                            Some((amount, s5)) => match text_parse(s5) {
                                Some((description, s6)) => if s6.len() == 0 {
                                    Some(
                                        ExpenseView {
                                            id,
                                            slaughterhouse_id,
                                            date,
                                            category,
                                            amount,
                                            description,
                                        },
                                    )
                                } else {
                                    None
                                },
                                None => None,
                            },
                            None => None,
                        },
                        None => None,
                    },
                    None => None,
                },
                None => None,
            },
            None => None,
        }
    }

    proof fn lemma_round_trip(v: ExpenseView) {
        let t6 = Seq::<u8>::empty();
        let t5 = text_wire(v.description) + t6;
        let t4 = u64_wire(v.amount) + t5;
        let t3 = text_wire(v.category) + t4;
        let t2 = u64_wire(v.date) + t3;
        let t1 = u64_wire(v.slaughterhouse_id) + t2;
        assert(t5 =~= text_wire(v.description));
        lemma_u64_parse(v.id, t1);
        lemma_u64_parse(v.slaughterhouse_id, t2);
        lemma_u64_parse(v.date, t3);
        lemma_text_parse(v.category, t4);
        lemma_u64_parse(v.amount, t5);
        lemma_text_parse(v.description, t6);
    }

    fn id(&self) -> (id: u64) {
        self.id
    }

    fn encode(&self) -> (bytes: Vec<u8>) {
        let mut buf: Vec<u8> = Vec::new();
        put_u64(&mut buf, self.id);
        put_u64(&mut buf, self.slaughterhouse_id);
        put_u64(&mut buf, self.date);
        put_text(&mut buf, &self.category);
        put_u64(&mut buf, self.amount);
        put_text(&mut buf, &self.description);
        assert(buf@ =~= Self::encoding(self@));
        buf
    }

    fn decode(bytes: &[u8]) -> (r: Option<Self>) {
        let mut rd = Reader::new(bytes);
        let id = rd.u64()?;
        let slaughterhouse_id = rd.u64()?;
        let date = rd.u64()?;
        let category = rd.text()?;
        let amount = rd.u64()?;
        let description = rd.text()?;
        if !rd.is_done() {
            return None;
        }
        Some(
            Expense {
                id,
                slaughterhouse_id,
                date,
                category,
                amount,
                description,
            },
        )
    }

    fn duplicate(&self) -> (copy: Self) {
        Expense {
            id: self.id,
            slaughterhouse_id: self.slaughterhouse_id,
            date: self.date,
            category: self.category.clone(),
            amount: self.amount,
            description: self.description.clone(),
        }
    }
}

} // verus!
