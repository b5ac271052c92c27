//! 8-bit unsigned values in a circuit: a variable range-checked to a byte, or
//! a constant, with bitwise AND, XOR and AND-NOT built from lookup gates.
//! An operation with a constant operand picks the one-input table for that
//! constant.
use vstd::prelude::*;
use crate::field::Fe;
use crate::composer::Variable;
use crate::constraint_system::{
    ConstraintSystem, Composer, extends, is_setup, value_in, variable_added, lookup_row_added,
    output_row_added, lemma_extends_keeps_values, lemma_extends_trans, lemma_output_row_value,
    lemma_output_row_counts,
};
use crate::lookup::{
    LookupError, CustomSet, Custom1DMap, Custom2DMap, rows_1d, rows_2d, rows_subset, set_rows,
    map_1d_rows, range_seq, on_axis,
};
use crate::tables::{
    UintRangeTable, U8AndTable, U8XorTable, U8NotAndTable, U8AndWithConstTable, U8XorWithConstTable,
    U8NotAndWithConstTable, lemma_range_table_membership,
};

verus! {

/// A byte held in a circuit variable; `value` is what the proving build
/// binds the variable to.
#[derive(Clone, Copy, Debug, PartialEq, Eq, Structural)]
pub struct Uint8Var {
    pub var: Variable,
    pub value: u8,
}

/// Every byte is a point of a 256-point axis.
proof fn lemma_byte_on_axis(v: u8)
    ensures
        on_axis(range_seq(256), v as int),
{
    assert(range_seq(256)[v as int] as int == v as int);
}

/// The rows of the table of `x -> x & k` over the bytes.
pub open spec fn and_const_rows(k: u8) -> Seq<(int, int, int)> {
    map_1d_rows(range_seq(256), |x: u64| ((x as u8) & k) as u64)
}

/// The rows of the table of `x -> x ^ k` over the bytes.
pub open spec fn xor_const_rows(k: u8) -> Seq<(int, int, int)> {
    map_1d_rows(range_seq(256), |x: u64| ((x as u8) ^ k) as u64)
}

/// The rows of the table of `x -> !x & k` over the bytes.
pub open spec fn not_and_const_rows(k: u8) -> Seq<(int, int, int)> {
    map_1d_rows(range_seq(256), |x: u64| ((!(x as u8)) & k) as u64)
}

impl Uint8Var {
    /// The variable exists in the build, and a proving build binds it to
    /// `value`.
    pub open spec fn wf_in(self, c: Composer) -> bool {
        self.var.valid(c.var_count()) && (!is_setup(c) ==> value_in(c, self.var) == self.value as int)
    }

    /// Makes a fresh variable for `value` and adds one range-check row
    /// `(var, 0, 0)` for it. Without the byte table loaded, the variable is
    /// made and no row is added.
    pub fn assign(cs: &mut ConstraintSystem, value: u8) -> (r: Result<Uint8Var, LookupError>)
        requires
            old(cs).wf(),
            old(cs).composer.rows() < usize::MAX,
            old(cs).composer.var_count() + 1 < usize::MAX,
        ensures
            final(cs).wf(),
            final(cs).lookup_table == old(cs).lookup_table,
            extends(old(cs).composer, final(cs).composer),
            r is Err <==> !rows_subset(set_rows(<UintRangeTable<8> as CustomSet>::elements()), old(cs).lookup_table.value()),
            r is Err ==> variable_added(old(cs).composer, final(cs).composer, value as int),
            r matches Ok(v) ==> v.value == value && v.wf_in(final(cs).composer)
                && v.var == Variable::Var(old(cs).composer.var_count() as usize)
                && output_row_added(old(cs).composer, final(cs).composer, v.var, Variable::Zero, Variable::Zero, value as int),
            r is Ok ==> final(cs).composer.rows() == old(cs).composer.rows() + 1,
    {
        let var = cs.assign_variable(Fe::from_u64(value as u64));
        let ghost mid = cs.composer;
        proof {
            lemma_range_table_membership::<8>(value as int);
            assert(crate::lookup::pow_of_two(8) == 256) by {
                reveal_with_fuel(crate::lookup::pow_of_two, 9);
            }
        }
        match cs.contains_gate::<UintRangeTable<8>>(var) {
            Ok(()) => {
                proof {
                    lemma_extends_trans(old(cs).composer, mid, cs.composer);
                    lemma_extends_keeps_values(mid, cs.composer, var);
                    assert(variable_added(old(cs).composer, mid, value as int));
                    assert(lookup_row_added(mid, cs.composer, var, Variable::Zero, Variable::Zero));
                }
                Ok(Uint8Var { var, value })
            },
            Err(e) => {
                proof {
                    lemma_extends_trans(old(cs).composer, mid, cs.composer);
                }
                Err(e)
            },
        }
    }

    /// `self.value & other.value`: one fresh output variable and one two-input lookup row
    /// `(self, other, out)` of the table for this operation.
    pub fn and(&self, cs: &mut ConstraintSystem, other: &Uint8Var) -> (r: Result<Uint8Var, LookupError>)
        requires
            old(cs).wf(),
            old(cs).has_room(),
            self.wf_in(old(cs).composer),
            other.wf_in(old(cs).composer),
        ensures
            final(cs).wf(),
            final(cs).lookup_table == old(cs).lookup_table,
            extends(old(cs).composer, final(cs).composer),
            r is Err <==> !rows_subset(rows_2d::<U8AndTable>(), old(cs).lookup_table.value()),
            r is Err ==> final(cs).composer == old(cs).composer,
            r matches Ok(v) ==> v.value == self.value & other.value && v.wf_in(final(cs).composer)
                && v.var == Variable::Var(old(cs).composer.var_count() as usize)
                && output_row_added(old(cs).composer, final(cs).composer, self.var, other.var, v.var, v.value as int),
            r is Ok ==> final(cs).composer.rows() == old(cs).composer.rows() + 1,
    {
        proof {
            lemma_byte_on_axis(self.value);
            lemma_byte_on_axis(other.value);
        }
        match cs.lookup_2d_gate::<U8AndTable>(self.var, other.var) {
            Ok(var) => {
                proof {
                    lemma_output_row_value(
                        old(cs).composer,
                        cs.composer,
                        self.var,
                        other.var,
                        var,
                        <U8AndTable as Custom2DMap>::map(
                            value_in(old(cs).composer, self.var) as u64,
                            value_in(old(cs).composer, other.var) as u64,
                        ) as int,
                        (self.value & other.value) as int,
                    );
                    lemma_output_row_counts(old(cs).composer, cs.composer, self.var, other.var, var, (self.value & other.value) as int);
                }
                Ok(Uint8Var { var, value: self.value & other.value })
            },
            Err(e) => Err(e),
        }
    }

    /// `self.value & y` for a constant `y`: one fresh output variable and one
    /// one-input lookup row `(self, out, 0)` of the table for `y`.
    pub fn and_with_const(&self, cs: &mut ConstraintSystem, y: u8) -> (r: Result<Uint8Var, LookupError>)
        requires
            old(cs).wf(),
            old(cs).has_room(),
            self.wf_in(old(cs).composer),
        ensures
            final(cs).wf(),
            final(cs).lookup_table == old(cs).lookup_table,
            extends(old(cs).composer, final(cs).composer),
            r is Err <==> !rows_subset(and_const_rows(y), old(cs).lookup_table.value()),
            r is Err ==> final(cs).composer == old(cs).composer,
            r matches Ok(v) ==> v.value == self.value & y && v.wf_in(final(cs).composer)
                && v.var == Variable::Var(old(cs).composer.var_count() as usize)
                && output_row_added(old(cs).composer, final(cs).composer, self.var, v.var, Variable::Zero, v.value as int),
            r is Ok ==> final(cs).composer.rows() == old(cs).composer.rows() + 1,
    {
        match y {
            0u8 => and_with_const_table::<0>(self, cs),
            1u8 => and_with_const_table::<1>(self, cs),
            2u8 => and_with_const_table::<2>(self, cs),
            3u8 => and_with_const_table::<3>(self, cs),
            4u8 => and_with_const_table::<4>(self, cs),
            5u8 => and_with_const_table::<5>(self, cs),
            6u8 => and_with_const_table::<6>(self, cs),
            7u8 => and_with_const_table::<7>(self, cs),
            8u8 => and_with_const_table::<8>(self, cs),
            9u8 => and_with_const_table::<9>(self, cs),
            10u8 => and_with_const_table::<10>(self, cs),
            11u8 => and_with_const_table::<11>(self, cs),
            12u8 => and_with_const_table::<12>(self, cs),
            13u8 => and_with_const_table::<13>(self, cs),
            14u8 => and_with_const_table::<14>(self, cs),
            15u8 => and_with_const_table::<15>(self, cs),
            16u8 => and_with_const_table::<16>(self, cs),
            17u8 => and_with_const_table::<17>(self, cs),
            18u8 => and_with_const_table::<18>(self, cs),
            19u8 => and_with_const_table::<19>(self, cs),
            20u8 => and_with_const_table::<20>(self, cs),
            21u8 => and_with_const_table::<21>(self, cs),
            22u8 => and_with_const_table::<22>(self, cs),
            23u8 => and_with_const_table::<23>(self, cs),
            24u8 => and_with_const_table::<24>(self, cs),
            25u8 => and_with_const_table::<25>(self, cs),
            26u8 => and_with_const_table::<26>(self, cs),
            27u8 => and_with_const_table::<27>(self, cs),
            28u8 => and_with_const_table::<28>(self, cs),
            29u8 => and_with_const_table::<29>(self, cs),
            30u8 => and_with_const_table::<30>(self, cs),
            31u8 => and_with_const_table::<31>(self, cs),
            32u8 => and_with_const_table::<32>(self, cs),
            33u8 => and_with_const_table::<33>(self, cs),
            34u8 => and_with_const_table::<34>(self, cs),
            35u8 => and_with_const_table::<35>(self, cs),
            36u8 => and_with_const_table::<36>(self, cs),
            37u8 => and_with_const_table::<37>(self, cs),
            38u8 => and_with_const_table::<38>(self, cs),
            39u8 => and_with_const_table::<39>(self, cs),
            40u8 => and_with_const_table::<40>(self, cs),
            41u8 => and_with_const_table::<41>(self, cs),
            42u8 => and_with_const_table::<42>(self, cs),
            43u8 => and_with_const_table::<43>(self, cs),
            44u8 => and_with_const_table::<44>(self, cs),
            45u8 => and_with_const_table::<45>(self, cs),
            46u8 => and_with_const_table::<46>(self, cs),
            47u8 => and_with_const_table::<47>(self, cs),
            48u8 => and_with_const_table::<48>(self, cs),
            49u8 => and_with_const_table::<49>(self, cs),
            50u8 => and_with_const_table::<50>(self, cs),
            51u8 => and_with_const_table::<51>(self, cs),
            52u8 => and_with_const_table::<52>(self, cs),
            53u8 => and_with_const_table::<53>(self, cs),
            54u8 => and_with_const_table::<54>(self, cs),
            55u8 => and_with_const_table::<55>(self, cs),
            56u8 => and_with_const_table::<56>(self, cs),
            57u8 => and_with_const_table::<57>(self, cs),
            58u8 => and_with_const_table::<58>(self, cs),
            59u8 => and_with_const_table::<59>(self, cs),
            60u8 => and_with_const_table::<60>(self, cs),
            61u8 => and_with_const_table::<61>(self, cs),
            62u8 => and_with_const_table::<62>(self, cs),
            63u8 => and_with_const_table::<63>(self, cs),
            64u8 => and_with_const_table::<64>(self, cs),
            65u8 => and_with_const_table::<65>(self, cs),
            66u8 => and_with_const_table::<66>(self, cs),
            67u8 => and_with_const_table::<67>(self, cs),
            68u8 => and_with_const_table::<68>(self, cs),
            69u8 => and_with_const_table::<69>(self, cs),
            70u8 => and_with_const_table::<70>(self, cs),
            71u8 => and_with_const_table::<71>(self, cs),
            72u8 => and_with_const_table::<72>(self, cs),
            73u8 => and_with_const_table::<73>(self, cs),
            74u8 => and_with_const_table::<74>(self, cs),
            75u8 => and_with_const_table::<75>(self, cs),
            76u8 => and_with_const_table::<76>(self, cs),
            77u8 => and_with_const_table::<77>(self, cs),
            78u8 => and_with_const_table::<78>(self, cs),
            79u8 => and_with_const_table::<79>(self, cs),
            80u8 => and_with_const_table::<80>(self, cs),
            81u8 => and_with_const_table::<81>(self, cs),
            82u8 => and_with_const_table::<82>(self, cs),
            83u8 => and_with_const_table::<83>(self, cs),
            84u8 => and_with_const_table::<84>(self, cs),
            85u8 => and_with_const_table::<85>(self, cs),
            86u8 => and_with_const_table::<86>(self, cs),
            87u8 => and_with_const_table::<87>(self, cs),
            88u8 => and_with_const_table::<88>(self, cs),
            89u8 => and_with_const_table::<89>(self, cs),
            90u8 => and_with_const_table::<90>(self, cs),
            91u8 => and_with_const_table::<91>(self, cs),
            92u8 => and_with_const_table::<92>(self, cs),
            93u8 => and_with_const_table::<93>(self, cs),
            94u8 => and_with_const_table::<94>(self, cs),
            95u8 => and_with_const_table::<95>(self, cs),
            96u8 => and_with_const_table::<96>(self, cs),
            97u8 => and_with_const_table::<97>(self, cs),
            98u8 => and_with_const_table::<98>(self, cs),
            99u8 => and_with_const_table::<99>(self, cs),
            100u8 => and_with_const_table::<100>(self, cs),
            101u8 => and_with_const_table::<101>(self, cs),
            102u8 => and_with_const_table::<102>(self, cs),
            103u8 => and_with_const_table::<103>(self, cs),
            104u8 => and_with_const_table::<104>(self, cs),
            105u8 => and_with_const_table::<105>(self, cs),
            106u8 => and_with_const_table::<106>(self, cs),
            107u8 => and_with_const_table::<107>(self, cs),
            108u8 => and_with_const_table::<108>(self, cs),
            109u8 => and_with_const_table::<109>(self, cs),
            110u8 => and_with_const_table::<110>(self, cs),
            111u8 => and_with_const_table::<111>(self, cs),
            112u8 => and_with_const_table::<112>(self, cs),
            113u8 => and_with_const_table::<113>(self, cs),
            114u8 => and_with_const_table::<114>(self, cs),
            115u8 => and_with_const_table::<115>(self, cs),
            116u8 => and_with_const_table::<116>(self, cs),
            117u8 => and_with_const_table::<117>(self, cs),
            118u8 => and_with_const_table::<118>(self, cs),
            119u8 => and_with_const_table::<119>(self, cs),
            120u8 => and_with_const_table::<120>(self, cs),
            121u8 => and_with_const_table::<121>(self, cs),
            122u8 => and_with_const_table::<122>(self, cs),
            123u8 => and_with_const_table::<123>(self, cs),
            124u8 => and_with_const_table::<124>(self, cs),
            125u8 => and_with_const_table::<125>(self, cs),
            126u8 => and_with_const_table::<126>(self, cs),
            127u8 => and_with_const_table::<127>(self, cs),
            128u8 => and_with_const_table::<128>(self, cs),
            129u8 => and_with_const_table::<129>(self, cs),
            130u8 => and_with_const_table::<130>(self, cs),
            131u8 => and_with_const_table::<131>(self, cs),
            132u8 => and_with_const_table::<132>(self, cs),
            133u8 => and_with_const_table::<133>(self, cs),
            134u8 => and_with_const_table::<134>(self, cs),
            135u8 => and_with_const_table::<135>(self, cs),
            136u8 => and_with_const_table::<136>(self, cs),
            137u8 => and_with_const_table::<137>(self, cs),
            138u8 => and_with_const_table::<138>(self, cs),
            139u8 => and_with_const_table::<139>(self, cs),
            140u8 => and_with_const_table::<140>(self, cs),
            141u8 => and_with_const_table::<141>(self, cs),
            142u8 => and_with_const_table::<142>(self, cs),
            143u8 => and_with_const_table::<143>(self, cs),
            144u8 => and_with_const_table::<144>(self, cs),
            145u8 => and_with_const_table::<145>(self, cs),
            146u8 => and_with_const_table::<146>(self, cs),
            147u8 => and_with_const_table::<147>(self, cs),
            148u8 => and_with_const_table::<148>(self, cs),
            149u8 => and_with_const_table::<149>(self, cs),
            150u8 => and_with_const_table::<150>(self, cs),
            151u8 => and_with_const_table::<151>(self, cs),
            152u8 => and_with_const_table::<152>(self, cs),
            153u8 => and_with_const_table::<153>(self, cs),
            154u8 => and_with_const_table::<154>(self, cs),
            155u8 => and_with_const_table::<155>(self, cs),
            156u8 => and_with_const_table::<156>(self, cs),
            157u8 => and_with_const_table::<157>(self, cs),
            158u8 => and_with_const_table::<158>(self, cs),
            159u8 => and_with_const_table::<159>(self, cs),
            160u8 => and_with_const_table::<160>(self, cs),
            161u8 => and_with_const_table::<161>(self, cs),
            162u8 => and_with_const_table::<162>(self, cs),
            163u8 => and_with_const_table::<163>(self, cs),
            164u8 => and_with_const_table::<164>(self, cs),
            165u8 => and_with_const_table::<165>(self, cs),
            166u8 => and_with_const_table::<166>(self, cs),
            167u8 => and_with_const_table::<167>(self, cs),
            168u8 => and_with_const_table::<168>(self, cs),
            169u8 => and_with_const_table::<169>(self, cs),
            170u8 => and_with_const_table::<170>(self, cs),
            171u8 => and_with_const_table::<171>(self, cs),
            172u8 => and_with_const_table::<172>(self, cs),
            173u8 => and_with_const_table::<173>(self, cs),
            174u8 => and_with_const_table::<174>(self, cs),
            175u8 => and_with_const_table::<175>(self, cs),
            176u8 => and_with_const_table::<176>(self, cs),
            177u8 => and_with_const_table::<177>(self, cs),
            178u8 => and_with_const_table::<178>(self, cs),
            179u8 => and_with_const_table::<179>(self, cs),
            180u8 => and_with_const_table::<180>(self, cs),
            181u8 => and_with_const_table::<181>(self, cs),
            182u8 => and_with_const_table::<182>(self, cs),
            183u8 => and_with_const_table::<183>(self, cs),
            184u8 => and_with_const_table::<184>(self, cs),
            185u8 => and_with_const_table::<185>(self, cs),
            186u8 => and_with_const_table::<186>(self, cs),
            187u8 => and_with_const_table::<187>(self, cs),
            188u8 => and_with_const_table::<188>(self, cs),
            189u8 => and_with_const_table::<189>(self, cs),
            190u8 => and_with_const_table::<190>(self, cs),
            191u8 => and_with_const_table::<191>(self, cs),
            192u8 => and_with_const_table::<192>(self, cs),
            193u8 => and_with_const_table::<193>(self, cs),
            194u8 => and_with_const_table::<194>(self, cs),
            195u8 => and_with_const_table::<195>(self, cs),
            196u8 => and_with_const_table::<196>(self, cs),
            197u8 => and_with_const_table::<197>(self, cs),
            198u8 => and_with_const_table::<198>(self, cs),
            199u8 => and_with_const_table::<199>(self, cs),
            200u8 => and_with_const_table::<200>(self, cs),
            201u8 => and_with_const_table::<201>(self, cs),
            202u8 => and_with_const_table::<202>(self, cs),
            203u8 => and_with_const_table::<203>(self, cs),
            204u8 => and_with_const_table::<204>(self, cs),
            205u8 => and_with_const_table::<205>(self, cs),
            206u8 => and_with_const_table::<206>(self, cs),
            207u8 => and_with_const_table::<207>(self, cs),
            208u8 => and_with_const_table::<208>(self, cs),
            209u8 => and_with_const_table::<209>(self, cs),
            210u8 => and_with_const_table::<210>(self, cs),
            211u8 => and_with_const_table::<211>(self, cs),
            212u8 => and_with_const_table::<212>(self, cs),
            213u8 => and_with_const_table::<213>(self, cs),
            214u8 => and_with_const_table::<214>(self, cs),
            215u8 => and_with_const_table::<215>(self, cs),
            216u8 => and_with_const_table::<216>(self, cs),
            217u8 => and_with_const_table::<217>(self, cs),
            218u8 => and_with_const_table::<218>(self, cs),
            219u8 => and_with_const_table::<219>(self, cs),
            220u8 => and_with_const_table::<220>(self, cs),
            221u8 => and_with_const_table::<221>(self, cs),
            222u8 => and_with_const_table::<222>(self, cs),
            223u8 => and_with_const_table::<223>(self, cs),
            224u8 => and_with_const_table::<224>(self, cs),
            225u8 => and_with_const_table::<225>(self, cs),
            226u8 => and_with_const_table::<226>(self, cs),
            227u8 => and_with_const_table::<227>(self, cs),
            228u8 => and_with_const_table::<228>(self, cs),
            229u8 => and_with_const_table::<229>(self, cs),
            230u8 => and_with_const_table::<230>(self, cs),
            231u8 => and_with_const_table::<231>(self, cs),
            232u8 => and_with_const_table::<232>(self, cs),
            233u8 => and_with_const_table::<233>(self, cs),
            234u8 => and_with_const_table::<234>(self, cs),
            235u8 => and_with_const_table::<235>(self, cs),
            236u8 => and_with_const_table::<236>(self, cs),
            237u8 => and_with_const_table::<237>(self, cs),
            238u8 => and_with_const_table::<238>(self, cs),
            239u8 => and_with_const_table::<239>(self, cs),
            240u8 => and_with_const_table::<240>(self, cs),
            241u8 => and_with_const_table::<241>(self, cs),
            242u8 => and_with_const_table::<242>(self, cs),
            243u8 => and_with_const_table::<243>(self, cs),
            244u8 => and_with_const_table::<244>(self, cs),
            245u8 => and_with_const_table::<245>(self, cs),
            246u8 => and_with_const_table::<246>(self, cs),
            247u8 => and_with_const_table::<247>(self, cs),
            248u8 => and_with_const_table::<248>(self, cs),
            249u8 => and_with_const_table::<249>(self, cs),
            250u8 => and_with_const_table::<250>(self, cs),
            251u8 => and_with_const_table::<251>(self, cs),
            252u8 => and_with_const_table::<252>(self, cs),
            253u8 => and_with_const_table::<253>(self, cs),
            254u8 => and_with_const_table::<254>(self, cs),
            255u8 => and_with_const_table::<255>(self, cs),
        }
    }

    /// `self.value ^ other.value`: one fresh output variable and one two-input lookup row
    /// `(self, other, out)` of the table for this operation.
    pub fn xor(&self, cs: &mut ConstraintSystem, other: &Uint8Var) -> (r: Result<Uint8Var, LookupError>)
        requires
            old(cs).wf(),
            old(cs).has_room(),
            self.wf_in(old(cs).composer),
            other.wf_in(old(cs).composer),
        ensures
            final(cs).wf(),
            final(cs).lookup_table == old(cs).lookup_table,
            extends(old(cs).composer, final(cs).composer),
            r is Err <==> !rows_subset(rows_2d::<U8XorTable>(), old(cs).lookup_table.value()),
            r is Err ==> final(cs).composer == old(cs).composer,
            r matches Ok(v) ==> v.value == self.value ^ other.value && v.wf_in(final(cs).composer)
                && v.var == Variable::Var(old(cs).composer.var_count() as usize)
                && output_row_added(old(cs).composer, final(cs).composer, self.var, other.var, v.var, v.value as int),
            r is Ok ==> final(cs).composer.rows() == old(cs).composer.rows() + 1,
    {
        proof {
            lemma_byte_on_axis(self.value);
            lemma_byte_on_axis(other.value);
        }
        match cs.lookup_2d_gate::<U8XorTable>(self.var, other.var) {
            Ok(var) => {
                proof {
                    lemma_output_row_value(
                        old(cs).composer,
                        cs.composer,
                        self.var,
                        other.var,
                        var,
                        <U8XorTable as Custom2DMap>::map(
                            value_in(old(cs).composer, self.var) as u64,
                            value_in(old(cs).composer, other.var) as u64,
                        ) as int,
                        (self.value ^ other.value) as int,
                    );
                    lemma_output_row_counts(old(cs).composer, cs.composer, self.var, other.var, var, (self.value ^ other.value) as int);
                }
                Ok(Uint8Var { var, value: self.value ^ other.value })
            },
            Err(e) => Err(e),
        }
    }

    /// `self.value ^ y` for a constant `y`: one fresh output variable and one
    /// one-input lookup row `(self, out, 0)` of the table for `y`.
    pub fn xor_with_const(&self, cs: &mut ConstraintSystem, y: u8) -> (r: Result<Uint8Var, LookupError>)
        requires
            old(cs).wf(),
            old(cs).has_room(),
            self.wf_in(old(cs).composer),
        ensures
            final(cs).wf(),
            final(cs).lookup_table == old(cs).lookup_table,
            extends(old(cs).composer, final(cs).composer),
            r is Err <==> !rows_subset(xor_const_rows(y), old(cs).lookup_table.value()),
            r is Err ==> final(cs).composer == old(cs).composer,
            r matches Ok(v) ==> v.value == self.value ^ y && v.wf_in(final(cs).composer)
                && v.var == Variable::Var(old(cs).composer.var_count() as usize)
                && output_row_added(old(cs).composer, final(cs).composer, self.var, v.var, Variable::Zero, v.value as int),
            r is Ok ==> final(cs).composer.rows() == old(cs).composer.rows() + 1,
    {
        match y {
            0u8 => xor_with_const_table::<0>(self, cs),
            1u8 => xor_with_const_table::<1>(self, cs),
            2u8 => xor_with_const_table::<2>(self, cs),
            3u8 => xor_with_const_table::<3>(self, cs),
            4u8 => xor_with_const_table::<4>(self, cs),
            5u8 => xor_with_const_table::<5>(self, cs),
            6u8 => xor_with_const_table::<6>(self, cs),
            7u8 => xor_with_const_table::<7>(self, cs),
            8u8 => xor_with_const_table::<8>(self, cs),
            9u8 => xor_with_const_table::<9>(self, cs),
            10u8 => xor_with_const_table::<10>(self, cs),
            11u8 => xor_with_const_table::<11>(self, cs),
            12u8 => xor_with_const_table::<12>(self, cs),
            13u8 => xor_with_const_table::<13>(self, cs),
            14u8 => xor_with_const_table::<14>(self, cs),
            15u8 => xor_with_const_table::<15>(self, cs),
            16u8 => xor_with_const_table::<16>(self, cs),
            17u8 => xor_with_const_table::<17>(self, cs),
            18u8 => xor_with_const_table::<18>(self, cs),
            19u8 => xor_with_const_table::<19>(self, cs),
            20u8 => xor_with_const_table::<20>(self, cs),
            21u8 => xor_with_const_table::<21>(self, cs),
            22u8 => xor_with_const_table::<22>(self, cs),
            23u8 => xor_with_const_table::<23>(self, cs),
            24u8 => xor_with_const_table::<24>(self, cs),
            25u8 => xor_with_const_table::<25>(self, cs),
            26u8 => xor_with_const_table::<26>(self, cs),
            27u8 => xor_with_const_table::<27>(self, cs),
            28u8 => xor_with_const_table::<28>(self, cs),
            29u8 => xor_with_const_table::<29>(self, cs),
            30u8 => xor_with_const_table::<30>(self, cs),
            31u8 => xor_with_const_table::<31>(self, cs),
            32u8 => xor_with_const_table::<32>(self, cs),
            33u8 => xor_with_const_table::<33>(self, cs),
            34u8 => xor_with_const_table::<34>(self, cs),
            35u8 => xor_with_const_table::<35>(self, cs),
            36u8 => xor_with_const_table::<36>(self, cs),
            37u8 => xor_with_const_table::<37>(self, cs),
            38u8 => xor_with_const_table::<38>(self, cs),
            39u8 => xor_with_const_table::<39>(self, cs),
            40u8 => xor_with_const_table::<40>(self, cs),
            41u8 => xor_with_const_table::<41>(self, cs),
            42u8 => xor_with_const_table::<42>(self, cs),
            43u8 => xor_with_const_table::<43>(self, cs),
            44u8 => xor_with_const_table::<44>(self, cs),
            45u8 => xor_with_const_table::<45>(self, cs),
            46u8 => xor_with_const_table::<46>(self, cs),
            47u8 => xor_with_const_table::<47>(self, cs),
            48u8 => xor_with_const_table::<48>(self, cs),
            49u8 => xor_with_const_table::<49>(self, cs),
            50u8 => xor_with_const_table::<50>(self, cs),
            51u8 => xor_with_const_table::<51>(self, cs),
            52u8 => xor_with_const_table::<52>(self, cs),
            53u8 => xor_with_const_table::<53>(self, cs),
            54u8 => xor_with_const_table::<54>(self, cs),
            55u8 => xor_with_const_table::<55>(self, cs),
            56u8 => xor_with_const_table::<56>(self, cs),
            57u8 => xor_with_const_table::<57>(self, cs),
            58u8 => xor_with_const_table::<58>(self, cs),
            59u8 => xor_with_const_table::<59>(self, cs),
            60u8 => xor_with_const_table::<60>(self, cs),
            61u8 => xor_with_const_table::<61>(self, cs),
            62u8 => xor_with_const_table::<62>(self, cs),
            63u8 => xor_with_const_table::<63>(self, cs),
            64u8 => xor_with_const_table::<64>(self, cs),
            65u8 => xor_with_const_table::<65>(self, cs),
            66u8 => xor_with_const_table::<66>(self, cs),
            67u8 => xor_with_const_table::<67>(self, cs),
            68u8 => xor_with_const_table::<68>(self, cs),
            69u8 => xor_with_const_table::<69>(self, cs),
            70u8 => xor_with_const_table::<70>(self, cs),
            71u8 => xor_with_const_table::<71>(self, cs),
            72u8 => xor_with_const_table::<72>(self, cs),
            73u8 => xor_with_const_table::<73>(self, cs),
            74u8 => xor_with_const_table::<74>(self, cs),
            75u8 => xor_with_const_table::<75>(self, cs),
            76u8 => xor_with_const_table::<76>(self, cs),
            77u8 => xor_with_const_table::<77>(self, cs),
            78u8 => xor_with_const_table::<78>(self, cs),
            79u8 => xor_with_const_table::<79>(self, cs),
            80u8 => xor_with_const_table::<80>(self, cs),
            81u8 => xor_with_const_table::<81>(self, cs),
            82u8 => xor_with_const_table::<82>(self, cs),
            83u8 => xor_with_const_table::<83>(self, cs),
            84u8 => xor_with_const_table::<84>(self, cs),
            85u8 => xor_with_const_table::<85>(self, cs),
            86u8 => xor_with_const_table::<86>(self, cs),
            87u8 => xor_with_const_table::<87>(self, cs),
            88u8 => xor_with_const_table::<88>(self, cs),
            89u8 => xor_with_const_table::<89>(self, cs),
            90u8 => xor_with_const_table::<90>(self, cs),
            91u8 => xor_with_const_table::<91>(self, cs),
            92u8 => xor_with_const_table::<92>(self, cs),
            93u8 => xor_with_const_table::<93>(self, cs),
            94u8 => xor_with_const_table::<94>(self, cs),
            95u8 => xor_with_const_table::<95>(self, cs),
            96u8 => xor_with_const_table::<96>(self, cs),
            97u8 => xor_with_const_table::<97>(self, cs),
            98u8 => xor_with_const_table::<98>(self, cs),
            99u8 => xor_with_const_table::<99>(self, cs),
            100u8 => xor_with_const_table::<100>(self, cs),
            101u8 => xor_with_const_table::<101>(self, cs),
            102u8 => xor_with_const_table::<102>(self, cs),
            103u8 => xor_with_const_table::<103>(self, cs),
            104u8 => xor_with_const_table::<104>(self, cs),
            105u8 => xor_with_const_table::<105>(self, cs),
            106u8 => xor_with_const_table::<106>(self, cs),
            107u8 => xor_with_const_table::<107>(self, cs),
            108u8 => xor_with_const_table::<108>(self, cs),
            109u8 => xor_with_const_table::<109>(self, cs),
            110u8 => xor_with_const_table::<110>(self, cs),
            111u8 => xor_with_const_table::<111>(self, cs),
            112u8 => xor_with_const_table::<112>(self, cs),
            113u8 => xor_with_const_table::<113>(self, cs),
            114u8 => xor_with_const_table::<114>(self, cs),
            115u8 => xor_with_const_table::<115>(self, cs),
            116u8 => xor_with_const_table::<116>(self, cs),
            117u8 => xor_with_const_table::<117>(self, cs),
            118u8 => xor_with_const_table::<118>(self, cs),
            119u8 => xor_with_const_table::<119>(self, cs),
            120u8 => xor_with_const_table::<120>(self, cs),
            121u8 => xor_with_const_table::<121>(self, cs),
            122u8 => xor_with_const_table::<122>(self, cs),
            123u8 => xor_with_const_table::<123>(self, cs),
            124u8 => xor_with_const_table::<124>(self, cs),
            125u8 => xor_with_const_table::<125>(self, cs),
            126u8 => xor_with_const_table::<126>(self, cs),
            127u8 => xor_with_const_table::<127>(self, cs),
            128u8 => xor_with_const_table::<128>(self, cs),
            129u8 => xor_with_const_table::<129>(self, cs),
            130u8 => xor_with_const_table::<130>(self, cs),
            131u8 => xor_with_const_table::<131>(self, cs),
            132u8 => xor_with_const_table::<132>(self, cs),
            133u8 => xor_with_const_table::<133>(self, cs),
            134u8 => xor_with_const_table::<134>(self, cs),
            135u8 => xor_with_const_table::<135>(self, cs),
            136u8 => xor_with_const_table::<136>(self, cs),
            137u8 => xor_with_const_table::<137>(self, cs),
            138u8 => xor_with_const_table::<138>(self, cs),
            139u8 => xor_with_const_table::<139>(self, cs),
            140u8 => xor_with_const_table::<140>(self, cs),
            141u8 => xor_with_const_table::<141>(self, cs),
            142u8 => xor_with_const_table::<142>(self, cs),
            143u8 => xor_with_const_table::<143>(self, cs),
            144u8 => xor_with_const_table::<144>(self, cs),
            145u8 => xor_with_const_table::<145>(self, cs),
            146u8 => xor_with_const_table::<146>(self, cs),
            147u8 => xor_with_const_table::<147>(self, cs),
            148u8 => xor_with_const_table::<148>(self, cs),
            149u8 => xor_with_const_table::<149>(self, cs),
            150u8 => xor_with_const_table::<150>(self, cs),
            151u8 => xor_with_const_table::<151>(self, cs),
            152u8 => xor_with_const_table::<152>(self, cs),
            153u8 => xor_with_const_table::<153>(self, cs),
            154u8 => xor_with_const_table::<154>(self, cs),
            155u8 => xor_with_const_table::<155>(self, cs),
            156u8 => xor_with_const_table::<156>(self, cs),
            157u8 => xor_with_const_table::<157>(self, cs),
            158u8 => xor_with_const_table::<158>(self, cs),
            159u8 => xor_with_const_table::<159>(self, cs),
            160u8 => xor_with_const_table::<160>(self, cs),
            161u8 => xor_with_const_table::<161>(self, cs),
            162u8 => xor_with_const_table::<162>(self, cs),
            163u8 => xor_with_const_table::<163>(self, cs),
            164u8 => xor_with_const_table::<164>(self, cs),
            165u8 => xor_with_const_table::<165>(self, cs),
            166u8 => xor_with_const_table::<166>(self, cs),
            167u8 => xor_with_const_table::<167>(self, cs),
            168u8 => xor_with_const_table::<168>(self, cs),
            169u8 => xor_with_const_table::<169>(self, cs),
            170u8 => xor_with_const_table::<170>(self, cs),
            171u8 => xor_with_const_table::<171>(self, cs),
            172u8 => xor_with_const_table::<172>(self, cs),
            173u8 => xor_with_const_table::<173>(self, cs),
            174u8 => xor_with_const_table::<174>(self, cs),
            175u8 => xor_with_const_table::<175>(self, cs),
            176u8 => xor_with_const_table::<176>(self, cs),
            177u8 => xor_with_const_table::<177>(self, cs),
            178u8 => xor_with_const_table::<178>(self, cs),
            179u8 => xor_with_const_table::<179>(self, cs),
            180u8 => xor_with_const_table::<180>(self, cs),
            181u8 => xor_with_const_table::<181>(self, cs),
            182u8 => xor_with_const_table::<182>(self, cs),
            183u8 => xor_with_const_table::<183>(self, cs),
            184u8 => xor_with_const_table::<184>(self, cs),
            185u8 => xor_with_const_table::<185>(self, cs),
            186u8 => xor_with_const_table::<186>(self, cs),
            187u8 => xor_with_const_table::<187>(self, cs),
            188u8 => xor_with_const_table::<188>(self, cs),
            189u8 => xor_with_const_table::<189>(self, cs),
            190u8 => xor_with_const_table::<190>(self, cs),
            191u8 => xor_with_const_table::<191>(self, cs),
            192u8 => xor_with_const_table::<192>(self, cs),
            193u8 => xor_with_const_table::<193>(self, cs),
            194u8 => xor_with_const_table::<194>(self, cs),
            195u8 => xor_with_const_table::<195>(self, cs),
            196u8 => xor_with_const_table::<196>(self, cs),
            197u8 => xor_with_const_table::<197>(self, cs),
            198u8 => xor_with_const_table::<198>(self, cs),
            199u8 => xor_with_const_table::<199>(self, cs),
            200u8 => xor_with_const_table::<200>(self, cs),
            201u8 => xor_with_const_table::<201>(self, cs),
            202u8 => xor_with_const_table::<202>(self, cs),
            203u8 => xor_with_const_table::<203>(self, cs),
            204u8 => xor_with_const_table::<204>(self, cs),
            205u8 => xor_with_const_table::<205>(self, cs),
            206u8 => xor_with_const_table::<206>(self, cs),
            207u8 => xor_with_const_table::<207>(self, cs),
            208u8 => xor_with_const_table::<208>(self, cs),
            209u8 => xor_with_const_table::<209>(self, cs),
            210u8 => xor_with_const_table::<210>(self, cs),
            211u8 => xor_with_const_table::<211>(self, cs),
            212u8 => xor_with_const_table::<212>(self, cs),
            213u8 => xor_with_const_table::<213>(self, cs),
            214u8 => xor_with_const_table::<214>(self, cs),
            215u8 => xor_with_const_table::<215>(self, cs),
            216u8 => xor_with_const_table::<216>(self, cs),
            217u8 => xor_with_const_table::<217>(self, cs),
            218u8 => xor_with_const_table::<218>(self, cs),
            219u8 => xor_with_const_table::<219>(self, cs),
            220u8 => xor_with_const_table::<220>(self, cs),
            221u8 => xor_with_const_table::<221>(self, cs),
            222u8 => xor_with_const_table::<222>(self, cs),
            223u8 => xor_with_const_table::<223>(self, cs),
            224u8 => xor_with_const_table::<224>(self, cs),
            225u8 => xor_with_const_table::<225>(self, cs),
            226u8 => xor_with_const_table::<226>(self, cs),
            227u8 => xor_with_const_table::<227>(self, cs),
            228u8 => xor_with_const_table::<228>(self, cs),
            229u8 => xor_with_const_table::<229>(self, cs),
            230u8 => xor_with_const_table::<230>(self, cs),
            231u8 => xor_with_const_table::<231>(self, cs),
            232u8 => xor_with_const_table::<232>(self, cs),
            233u8 => xor_with_const_table::<233>(self, cs),
            234u8 => xor_with_const_table::<234>(self, cs),
            235u8 => xor_with_const_table::<235>(self, cs),
            236u8 => xor_with_const_table::<236>(self, cs),
            237u8 => xor_with_const_table::<237>(self, cs),
            238u8 => xor_with_const_table::<238>(self, cs),
            239u8 => xor_with_const_table::<239>(self, cs),
            240u8 => xor_with_const_table::<240>(self, cs),
            241u8 => xor_with_const_table::<241>(self, cs),
            242u8 => xor_with_const_table::<242>(self, cs),
            243u8 => xor_with_const_table::<243>(self, cs),
            244u8 => xor_with_const_table::<244>(self, cs),
            245u8 => xor_with_const_table::<245>(self, cs),
            246u8 => xor_with_const_table::<246>(self, cs),
            247u8 => xor_with_const_table::<247>(self, cs),
            248u8 => xor_with_const_table::<248>(self, cs),
            249u8 => xor_with_const_table::<249>(self, cs),
            250u8 => xor_with_const_table::<250>(self, cs),
            251u8 => xor_with_const_table::<251>(self, cs),
            252u8 => xor_with_const_table::<252>(self, cs),
            253u8 => xor_with_const_table::<253>(self, cs),
            254u8 => xor_with_const_table::<254>(self, cs),
            255u8 => xor_with_const_table::<255>(self, cs),
        }
    }

    /// `(!self.value) & other.value`: one fresh output variable and one two-input lookup row
    /// `(self, other, out)` of the table for this operation.
    pub fn not_and(&self, cs: &mut ConstraintSystem, other: &Uint8Var) -> (r: Result<Uint8Var, LookupError>)
        requires
            old(cs).wf(),
            old(cs).has_room(),
            self.wf_in(old(cs).composer),
            other.wf_in(old(cs).composer),
        ensures
            final(cs).wf(),
            final(cs).lookup_table == old(cs).lookup_table,
            extends(old(cs).composer, final(cs).composer),
            r is Err <==> !rows_subset(rows_2d::<U8NotAndTable>(), old(cs).lookup_table.value()),
            r is Err ==> final(cs).composer == old(cs).composer,
            r matches Ok(v) ==> v.value == (!self.value) & other.value && v.wf_in(final(cs).composer)
                && v.var == Variable::Var(old(cs).composer.var_count() as usize)
                && output_row_added(old(cs).composer, final(cs).composer, self.var, other.var, v.var, v.value as int),
            r is Ok ==> final(cs).composer.rows() == old(cs).composer.rows() + 1,
    {
        proof {
            lemma_byte_on_axis(self.value);
            lemma_byte_on_axis(other.value);
        }
        match cs.lookup_2d_gate::<U8NotAndTable>(self.var, other.var) {
            Ok(var) => {
                proof {
                    lemma_output_row_value(
                        old(cs).composer,
                        cs.composer,
                        self.var,
                        other.var,
                        var,
                        <U8NotAndTable as Custom2DMap>::map(
                            value_in(old(cs).composer, self.var) as u64,
                            value_in(old(cs).composer, other.var) as u64,
                        ) as int,
                        ((!self.value) & other.value) as int,
                    );
                    lemma_output_row_counts(old(cs).composer, cs.composer, self.var, other.var, var, ((!self.value) & other.value) as int);
                }
                Ok(Uint8Var { var, value: (!self.value) & other.value })
            },
            Err(e) => Err(e),
        }
    }

    /// `(!self.value) & y` for a constant `y`: one fresh output variable and one
    /// one-input lookup row `(self, out, 0)` of the table for `y`.
    pub fn not_and_with_const(&self, cs: &mut ConstraintSystem, y: u8) -> (r: Result<Uint8Var, LookupError>)
        requires
            old(cs).wf(),
            old(cs).has_room(),
            self.wf_in(old(cs).composer),
        ensures
            final(cs).wf(),
            final(cs).lookup_table == old(cs).lookup_table,
            extends(old(cs).composer, final(cs).composer),
            r is Err <==> !rows_subset(not_and_const_rows(y), old(cs).lookup_table.value()),
            r is Err ==> final(cs).composer == old(cs).composer,
            r matches Ok(v) ==> v.value == (!self.value) & y && v.wf_in(final(cs).composer)
                && v.var == Variable::Var(old(cs).composer.var_count() as usize)
                && output_row_added(old(cs).composer, final(cs).composer, self.var, v.var, Variable::Zero, v.value as int),
            r is Ok ==> final(cs).composer.rows() == old(cs).composer.rows() + 1,
    {
        match y {
            0u8 => not_and_with_const_table::<0>(self, cs),
            1u8 => not_and_with_const_table::<1>(self, cs),
            2u8 => not_and_with_const_table::<2>(self, cs),
            3u8 => not_and_with_const_table::<3>(self, cs),
            4u8 => not_and_with_const_table::<4>(self, cs),
            5u8 => not_and_with_const_table::<5>(self, cs),
            6u8 => not_and_with_const_table::<6>(self, cs),
            7u8 => not_and_with_const_table::<7>(self, cs),
            8u8 => not_and_with_const_table::<8>(self, cs),
            9u8 => not_and_with_const_table::<9>(self, cs),
            10u8 => not_and_with_const_table::<10>(self, cs),
            11u8 => not_and_with_const_table::<11>(self, cs),
            12u8 => not_and_with_const_table::<12>(self, cs),
            13u8 => not_and_with_const_table::<13>(self, cs),
            14u8 => not_and_with_const_table::<14>(self, cs),
            15u8 => not_and_with_const_table::<15>(self, cs),
            16u8 => not_and_with_const_table::<16>(self, cs),
            17u8 => not_and_with_const_table::<17>(self, cs),
            18u8 => not_and_with_const_table::<18>(self, cs),
            19u8 => not_and_with_const_table::<19>(self, cs),
            20u8 => not_and_with_const_table::<20>(self, cs),
            21u8 => not_and_with_const_table::<21>(self, cs),
            22u8 => not_and_with_const_table::<22>(self, cs),
            23u8 => not_and_with_const_table::<23>(self, cs),
            24u8 => not_and_with_const_table::<24>(self, cs),
            25u8 => not_and_with_const_table::<25>(self, cs),
            26u8 => not_and_with_const_table::<26>(self, cs),
            27u8 => not_and_with_const_table::<27>(self, cs),
            28u8 => not_and_with_const_table::<28>(self, cs),
            29u8 => not_and_with_const_table::<29>(self, cs),
            30u8 => not_and_with_const_table::<30>(self, cs),
            31u8 => not_and_with_const_table::<31>(self, cs),
            32u8 => not_and_with_const_table::<32>(self, cs),
            33u8 => not_and_with_const_table::<33>(self, cs),
            34u8 => not_and_with_const_table::<34>(self, cs),
            35u8 => not_and_with_const_table::<35>(self, cs),
            36u8 => not_and_with_const_table::<36>(self, cs),
            37u8 => not_and_with_const_table::<37>(self, cs),
            38u8 => not_and_with_const_table::<38>(self, cs),
            39u8 => not_and_with_const_table::<39>(self, cs),
            40u8 => not_and_with_const_table::<40>(self, cs),
            41u8 => not_and_with_const_table::<41>(self, cs),
            42u8 => not_and_with_const_table::<42>(self, cs),
            43u8 => not_and_with_const_table::<43>(self, cs),
            44u8 => not_and_with_const_table::<44>(self, cs),
            45u8 => not_and_with_const_table::<45>(self, cs),
            46u8 => not_and_with_const_table::<46>(self, cs),
            47u8 => not_and_with_const_table::<47>(self, cs),
            48u8 => not_and_with_const_table::<48>(self, cs),
            49u8 => not_and_with_const_table::<49>(self, cs),
            50u8 => not_and_with_const_table::<50>(self, cs),
            51u8 => not_and_with_const_table::<51>(self, cs),
            52u8 => not_and_with_const_table::<52>(self, cs),
            53u8 => not_and_with_const_table::<53>(self, cs),
            54u8 => not_and_with_const_table::<54>(self, cs),
            55u8 => not_and_with_const_table::<55>(self, cs),
            56u8 => not_and_with_const_table::<56>(self, cs),
            57u8 => not_and_with_const_table::<57>(self, cs),
            58u8 => not_and_with_const_table::<58>(self, cs),
            59u8 => not_and_with_const_table::<59>(self, cs),
            60u8 => not_and_with_const_table::<60>(self, cs),
            61u8 => not_and_with_const_table::<61>(self, cs),
            62u8 => not_and_with_const_table::<62>(self, cs),
            63u8 => not_and_with_const_table::<63>(self, cs),
            64u8 => not_and_with_const_table::<64>(self, cs),
            65u8 => not_and_with_const_table::<65>(self, cs),
            66u8 => not_and_with_const_table::<66>(self, cs),
            67u8 => not_and_with_const_table::<67>(self, cs),
            68u8 => not_and_with_const_table::<68>(self, cs),
            69u8 => not_and_with_const_table::<69>(self, cs),
            70u8 => not_and_with_const_table::<70>(self, cs),
            71u8 => not_and_with_const_table::<71>(self, cs),
            72u8 => not_and_with_const_table::<72>(self, cs),
            73u8 => not_and_with_const_table::<73>(self, cs),
            74u8 => not_and_with_const_table::<74>(self, cs),
            75u8 => not_and_with_const_table::<75>(self, cs),
            76u8 => not_and_with_const_table::<76>(self, cs),
            77u8 => not_and_with_const_table::<77>(self, cs),
            78u8 => not_and_with_const_table::<78>(self, cs),
            79u8 => not_and_with_const_table::<79>(self, cs),
            80u8 => not_and_with_const_table::<80>(self, cs),
            81u8 => not_and_with_const_table::<81>(self, cs),
            82u8 => not_and_with_const_table::<82>(self, cs),
            83u8 => not_and_with_const_table::<83>(self, cs),
            84u8 => not_and_with_const_table::<84>(self, cs),
            85u8 => not_and_with_const_table::<85>(self, cs),
            86u8 => not_and_with_const_table::<86>(self, cs),
            87u8 => not_and_with_const_table::<87>(self, cs),
            88u8 => not_and_with_const_table::<88>(self, cs),
            89u8 => not_and_with_const_table::<89>(self, cs),
            90u8 => not_and_with_const_table::<90>(self, cs),
            91u8 => not_and_with_const_table::<91>(self, cs),
            92u8 => not_and_with_const_table::<92>(self, cs),
            93u8 => not_and_with_const_table::<93>(self, cs),
            94u8 => not_and_with_const_table::<94>(self, cs),
            95u8 => not_and_with_const_table::<95>(self, cs),
            96u8 => not_and_with_const_table::<96>(self, cs),
            97u8 => not_and_with_const_table::<97>(self, cs),
            98u8 => not_and_with_const_table::<98>(self, cs),
            99u8 => not_and_with_const_table::<99>(self, cs),
            100u8 => not_and_with_const_table::<100>(self, cs),
            101u8 => not_and_with_const_table::<101>(self, cs),
            102u8 => not_and_with_const_table::<102>(self, cs),
            103u8 => not_and_with_const_table::<103>(self, cs),
            104u8 => not_and_with_const_table::<104>(self, cs),
            105u8 => not_and_with_const_table::<105>(self, cs),
            106u8 => not_and_with_const_table::<106>(self, cs),
            107u8 => not_and_with_const_table::<107>(self, cs),
            108u8 => not_and_with_const_table::<108>(self, cs),
            109u8 => not_and_with_const_table::<109>(self, cs),
            110u8 => not_and_with_const_table::<110>(self, cs),
            111u8 => not_and_with_const_table::<111>(self, cs),
            112u8 => not_and_with_const_table::<112>(self, cs),
            113u8 => not_and_with_const_table::<113>(self, cs),
            114u8 => not_and_with_const_table::<114>(self, cs),
            115u8 => not_and_with_const_table::<115>(self, cs),
            116u8 => not_and_with_const_table::<116>(self, cs),
            117u8 => not_and_with_const_table::<117>(self, cs),
            118u8 => not_and_with_const_table::<118>(self, cs),
            119u8 => not_and_with_const_table::<119>(self, cs),
            120u8 => not_and_with_const_table::<120>(self, cs),
            121u8 => not_and_with_const_table::<121>(self, cs),
            122u8 => not_and_with_const_table::<122>(self, cs),
            123u8 => not_and_with_const_table::<123>(self, cs),
            124u8 => not_and_with_const_table::<124>(self, cs),
            125u8 => not_and_with_const_table::<125>(self, cs),
            126u8 => not_and_with_const_table::<126>(self, cs),
            127u8 => not_and_with_const_table::<127>(self, cs),
            128u8 => not_and_with_const_table::<128>(self, cs),
            129u8 => not_and_with_const_table::<129>(self, cs),
            130u8 => not_and_with_const_table::<130>(self, cs),
            131u8 => not_and_with_const_table::<131>(self, cs),
            132u8 => not_and_with_const_table::<132>(self, cs),
            133u8 => not_and_with_const_table::<133>(self, cs),
            134u8 => not_and_with_const_table::<134>(self, cs),
            135u8 => not_and_with_const_table::<135>(self, cs),
            136u8 => not_and_with_const_table::<136>(self, cs),
            137u8 => not_and_with_const_table::<137>(self, cs),
            138u8 => not_and_with_const_table::<138>(self, cs),
            139u8 => not_and_with_const_table::<139>(self, cs),
            140u8 => not_and_with_const_table::<140>(self, cs),
            141u8 => not_and_with_const_table::<141>(self, cs),
            142u8 => not_and_with_const_table::<142>(self, cs),
            143u8 => not_and_with_const_table::<143>(self, cs),
            144u8 => not_and_with_const_table::<144>(self, cs),
            145u8 => not_and_with_const_table::<145>(self, cs),
            146u8 => not_and_with_const_table::<146>(self, cs),
            147u8 => not_and_with_const_table::<147>(self, cs),
            148u8 => not_and_with_const_table::<148>(self, cs),
            149u8 => not_and_with_const_table::<149>(self, cs),
            150u8 => not_and_with_const_table::<150>(self, cs),
            151u8 => not_and_with_const_table::<151>(self, cs),
            152u8 => not_and_with_const_table::<152>(self, cs),
            153u8 => not_and_with_const_table::<153>(self, cs),
            154u8 => not_and_with_const_table::<154>(self, cs),
            155u8 => not_and_with_const_table::<155>(self, cs),
            156u8 => not_and_with_const_table::<156>(self, cs),
            157u8 => not_and_with_const_table::<157>(self, cs),
            158u8 => not_and_with_const_table::<158>(self, cs),
            159u8 => not_and_with_const_table::<159>(self, cs),
            160u8 => not_and_with_const_table::<160>(self, cs),
            161u8 => not_and_with_const_table::<161>(self, cs),
            162u8 => not_and_with_const_table::<162>(self, cs),
            163u8 => not_and_with_const_table::<163>(self, cs),
            164u8 => not_and_with_const_table::<164>(self, cs),
            165u8 => not_and_with_const_table::<165>(self, cs),
            166u8 => not_and_with_const_table::<166>(self, cs),
            167u8 => not_and_with_const_table::<167>(self, cs),
            168u8 => not_and_with_const_table::<168>(self, cs),
            169u8 => not_and_with_const_table::<169>(self, cs),
            170u8 => not_and_with_const_table::<170>(self, cs),
            171u8 => not_and_with_const_table::<171>(self, cs),
            172u8 => not_and_with_const_table::<172>(self, cs),
            173u8 => not_and_with_const_table::<173>(self, cs),
            174u8 => not_and_with_const_table::<174>(self, cs),
            175u8 => not_and_with_const_table::<175>(self, cs),
            176u8 => not_and_with_const_table::<176>(self, cs),
            177u8 => not_and_with_const_table::<177>(self, cs),
            178u8 => not_and_with_const_table::<178>(self, cs),
            179u8 => not_and_with_const_table::<179>(self, cs),
            180u8 => not_and_with_const_table::<180>(self, cs),
            181u8 => not_and_with_const_table::<181>(self, cs),
            182u8 => not_and_with_const_table::<182>(self, cs),
            183u8 => not_and_with_const_table::<183>(self, cs),
            184u8 => not_and_with_const_table::<184>(self, cs),
            185u8 => not_and_with_const_table::<185>(self, cs),
            186u8 => not_and_with_const_table::<186>(self, cs),
            187u8 => not_and_with_const_table::<187>(self, cs),
            188u8 => not_and_with_const_table::<188>(self, cs),
            189u8 => not_and_with_const_table::<189>(self, cs),
            190u8 => not_and_with_const_table::<190>(self, cs),
            191u8 => not_and_with_const_table::<191>(self, cs),
            192u8 => not_and_with_const_table::<192>(self, cs),
            193u8 => not_and_with_const_table::<193>(self, cs),
            194u8 => not_and_with_const_table::<194>(self, cs),
            195u8 => not_and_with_const_table::<195>(self, cs),
            196u8 => not_and_with_const_table::<196>(self, cs),
            197u8 => not_and_with_const_table::<197>(self, cs),
            198u8 => not_and_with_const_table::<198>(self, cs),
            199u8 => not_and_with_const_table::<199>(self, cs),
            200u8 => not_and_with_const_table::<200>(self, cs),
            201u8 => not_and_with_const_table::<201>(self, cs),
            202u8 => not_and_with_const_table::<202>(self, cs),
            203u8 => not_and_with_const_table::<203>(self, cs),
            204u8 => not_and_with_const_table::<204>(self, cs),
            205u8 => not_and_with_const_table::<205>(self, cs),
            206u8 => not_and_with_const_table::<206>(self, cs),
            207u8 => not_and_with_const_table::<207>(self, cs),
            208u8 => not_and_with_const_table::<208>(self, cs),
            209u8 => not_and_with_const_table::<209>(self, cs),
            210u8 => not_and_with_const_table::<210>(self, cs),
            211u8 => not_and_with_const_table::<211>(self, cs),
            212u8 => not_and_with_const_table::<212>(self, cs),
            213u8 => not_and_with_const_table::<213>(self, cs),
            214u8 => not_and_with_const_table::<214>(self, cs),
            215u8 => not_and_with_const_table::<215>(self, cs),
            216u8 => not_and_with_const_table::<216>(self, cs),
            217u8 => not_and_with_const_table::<217>(self, cs),
            218u8 => not_and_with_const_table::<218>(self, cs),
            219u8 => not_and_with_const_table::<219>(self, cs),
            220u8 => not_and_with_const_table::<220>(self, cs),
            221u8 => not_and_with_const_table::<221>(self, cs),
            222u8 => not_and_with_const_table::<222>(self, cs),
            223u8 => not_and_with_const_table::<223>(self, cs),
            224u8 => not_and_with_const_table::<224>(self, cs),
            225u8 => not_and_with_const_table::<225>(self, cs),
            226u8 => not_and_with_const_table::<226>(self, cs),
            227u8 => not_and_with_const_table::<227>(self, cs),
            228u8 => not_and_with_const_table::<228>(self, cs),
            229u8 => not_and_with_const_table::<229>(self, cs),
            230u8 => not_and_with_const_table::<230>(self, cs),
            231u8 => not_and_with_const_table::<231>(self, cs),
            232u8 => not_and_with_const_table::<232>(self, cs),
            233u8 => not_and_with_const_table::<233>(self, cs),
            234u8 => not_and_with_const_table::<234>(self, cs),
            235u8 => not_and_with_const_table::<235>(self, cs),
            236u8 => not_and_with_const_table::<236>(self, cs),
            237u8 => not_and_with_const_table::<237>(self, cs),
            238u8 => not_and_with_const_table::<238>(self, cs),
            239u8 => not_and_with_const_table::<239>(self, cs),
            240u8 => not_and_with_const_table::<240>(self, cs),
            241u8 => not_and_with_const_table::<241>(self, cs),
            242u8 => not_and_with_const_table::<242>(self, cs),
            243u8 => not_and_with_const_table::<243>(self, cs),
            244u8 => not_and_with_const_table::<244>(self, cs),
            245u8 => not_and_with_const_table::<245>(self, cs),
            246u8 => not_and_with_const_table::<246>(self, cs),
            247u8 => not_and_with_const_table::<247>(self, cs),
            248u8 => not_and_with_const_table::<248>(self, cs),
            249u8 => not_and_with_const_table::<249>(self, cs),
            250u8 => not_and_with_const_table::<250>(self, cs),
            251u8 => not_and_with_const_table::<251>(self, cs),
            252u8 => not_and_with_const_table::<252>(self, cs),
            253u8 => not_and_with_const_table::<253>(self, cs),
            254u8 => not_and_with_const_table::<254>(self, cs),
            255u8 => not_and_with_const_table::<255>(self, cs),
        }
    }
}

/// `x.value & K`: one fresh output variable and one lookup row `(x, out, 0)` of
/// the table for `K`.
fn and_with_const_table<const K: u8>(x: &Uint8Var, cs: &mut ConstraintSystem) -> (r: Result<Uint8Var, LookupError>)
    requires
        old(cs).wf(),
        old(cs).has_room(),
        x.wf_in(old(cs).composer),
    ensures
        final(cs).wf(),
        final(cs).lookup_table == old(cs).lookup_table,
        extends(old(cs).composer, final(cs).composer),
        r is Err <==> !rows_subset(and_const_rows(K), old(cs).lookup_table.value()),
        r is Err ==> final(cs).composer == old(cs).composer,
        r matches Ok(v) ==> v.value == x.value & K && v.wf_in(final(cs).composer)
            && v.var == Variable::Var(old(cs).composer.var_count() as usize)
            && output_row_added(old(cs).composer, final(cs).composer, x.var, v.var, Variable::Zero, v.value as int),
        r is Ok ==> final(cs).composer.rows() == old(cs).composer.rows() + 1,
{
    proof {
        assert(rows_1d::<U8AndWithConstTable<K>>() =~= and_const_rows(K));
        lemma_byte_on_axis(x.value);
    }
    match cs.lookup_1d_gate::<U8AndWithConstTable<K>>(x.var) {
        Ok(var) => {
            proof {
                lemma_output_row_value(
                    old(cs).composer,
                    cs.composer,
                    x.var,
                    var,
                    Variable::Zero,
                    <U8AndWithConstTable<K> as Custom1DMap>::map(value_in(old(cs).composer, x.var) as u64) as int,
                    (x.value & K) as int,
                );
                lemma_output_row_counts(old(cs).composer, cs.composer, x.var, var, Variable::Zero, (x.value & K) as int);
            }
            Ok(Uint8Var { var, value: x.value & K })
        },
        Err(e) => Err(e),
    }
}

/// `x.value ^ K`: one fresh output variable and one lookup row `(x, out, 0)` of
/// the table for `K`.
fn xor_with_const_table<const K: u8>(x: &Uint8Var, cs: &mut ConstraintSystem) -> (r: Result<Uint8Var, LookupError>)
    requires
        old(cs).wf(),
        old(cs).has_room(),
        x.wf_in(old(cs).composer),
    ensures
        final(cs).wf(),
        final(cs).lookup_table == old(cs).lookup_table,
        extends(old(cs).composer, final(cs).composer),
        r is Err <==> !rows_subset(xor_const_rows(K), old(cs).lookup_table.value()),
        r is Err ==> final(cs).composer == old(cs).composer,
        r matches Ok(v) ==> v.value == x.value ^ K && v.wf_in(final(cs).composer)
            && v.var == Variable::Var(old(cs).composer.var_count() as usize)
            && output_row_added(old(cs).composer, final(cs).composer, x.var, v.var, Variable::Zero, v.value as int),
        r is Ok ==> final(cs).composer.rows() == old(cs).composer.rows() + 1,
{
    proof {
        assert(rows_1d::<U8XorWithConstTable<K>>() =~= xor_const_rows(K));
        lemma_byte_on_axis(x.value);
    }
    match cs.lookup_1d_gate::<U8XorWithConstTable<K>>(x.var) {
        Ok(var) => {
            proof {
                lemma_output_row_value(
                    old(cs).composer,
                    cs.composer,
                    x.var,
                    var,
                    Variable::Zero,
                    <U8XorWithConstTable<K> as Custom1DMap>::map(value_in(old(cs).composer, x.var) as u64) as int,
                    (x.value ^ K) as int,
                );
                lemma_output_row_counts(old(cs).composer, cs.composer, x.var, var, Variable::Zero, (x.value ^ K) as int);
            }
            Ok(Uint8Var { var, value: x.value ^ K })
        },
        Err(e) => Err(e),
    }
}

/// `(!x.value) & K`: one fresh output variable and one lookup row `(x, out, 0)` of
/// the table for `K`.
fn not_and_with_const_table<const K: u8>(x: &Uint8Var, cs: &mut ConstraintSystem) -> (r: Result<Uint8Var, LookupError>)
    requires
        old(cs).wf(),
        old(cs).has_room(),
        x.wf_in(old(cs).composer),
    ensures
        final(cs).wf(),
        final(cs).lookup_table == old(cs).lookup_table,
        extends(old(cs).composer, final(cs).composer),
        r is Err <==> !rows_subset(not_and_const_rows(K), old(cs).lookup_table.value()),
        r is Err ==> final(cs).composer == old(cs).composer,
        r matches Ok(v) ==> v.value == (!x.value) & K && v.wf_in(final(cs).composer)
            && v.var == Variable::Var(old(cs).composer.var_count() as usize)
            && output_row_added(old(cs).composer, final(cs).composer, x.var, v.var, Variable::Zero, v.value as int),
        r is Ok ==> final(cs).composer.rows() == old(cs).composer.rows() + 1,
{
    proof {
        assert(rows_1d::<U8NotAndWithConstTable<K>>() =~= not_and_const_rows(K));
        lemma_byte_on_axis(x.value);
    }
    match cs.lookup_1d_gate::<U8NotAndWithConstTable<K>>(x.var) {
        Ok(var) => {
            proof {
                lemma_output_row_value(
                    old(cs).composer,
                    cs.composer,
                    x.var,
                    var,
                    Variable::Zero,
                    <U8NotAndWithConstTable<K> as Custom1DMap>::map(value_in(old(cs).composer, x.var) as u64) as int,
                    ((!x.value) & K) as int,
                );
                lemma_output_row_counts(old(cs).composer, cs.composer, x.var, var, Variable::Zero, ((!x.value) & K) as int);
            }
            Ok(Uint8Var { var, value: (!x.value) & K })
        },
        Err(e) => Err(e),
    }
}

/// A byte that is either held in a circuit variable or known when the
/// circuit is written.
#[derive(Clone, Copy, Debug, PartialEq, Eq, Structural)]
pub enum Uint8 {
    Variable(Uint8Var),
    Constant(u8),
}

pub open spec fn both_constant(a: Uint8, b: Uint8) -> bool {
    a is Constant && b is Constant
}

/// What a binary operation on `a` and `b` adds to the build: nothing for two
/// constants; else one fresh output variable `out` and one lookup row, wired
/// `(a, b, out)` for two variables and `(v, out, 0)` on the variable operand
/// `v` otherwise.
pub open spec fn op_row_added(old: Composer, new: Composer, a: Uint8, b: Uint8, out: Variable, value: int) -> bool {
    match a {
        Uint8::Variable(x) => match b {
            Uint8::Variable(y) => output_row_added(old, new, x.var, y.var, out, value),
            Uint8::Constant(_) => output_row_added(old, new, x.var, out, Variable::Zero, value),
        },
        Uint8::Constant(_) => match b {
            Uint8::Variable(y) => output_row_added(old, new, y.var, out, Variable::Zero, value),
            Uint8::Constant(_) => new == old,
        },
    }
}

/// The table rows an AND of `a` and `b` needs: none for two constants.
pub open spec fn and_rows_needed(a: Uint8, b: Uint8) -> Seq<(int, int, int)> {
    match a {
        Uint8::Variable(_) => match b {
            Uint8::Variable(_) => rows_2d::<U8AndTable>(),
            Uint8::Constant(y) => and_const_rows(y),
        },
        Uint8::Constant(x) => match b {
            Uint8::Variable(_) => and_const_rows(x),
            Uint8::Constant(_) => Seq::empty(),
        },
    }
}

/// The table rows a XOR of `a` and `b` needs.
pub open spec fn xor_rows_needed(a: Uint8, b: Uint8) -> Seq<(int, int, int)> {
    match a {
        Uint8::Variable(_) => match b {
            Uint8::Variable(_) => rows_2d::<U8XorTable>(),
            Uint8::Constant(y) => xor_const_rows(y),
        },
        Uint8::Constant(x) => match b {
            Uint8::Variable(_) => xor_const_rows(x),
            Uint8::Constant(_) => Seq::empty(),
        },
    }
}

/// The table rows `(!a) & b` needs; with `a` constant it is an AND with the
/// constant `!a`.
pub open spec fn not_and_rows_needed(a: Uint8, b: Uint8) -> Seq<(int, int, int)> {
    match a {
        Uint8::Variable(_) => match b {
            Uint8::Variable(_) => rows_2d::<U8NotAndTable>(),
            Uint8::Constant(y) => not_and_const_rows(y),
        },
        Uint8::Constant(x) => match b {
            Uint8::Variable(_) => and_const_rows(!x),
            Uint8::Constant(_) => Seq::empty(),
        },
    }
}

impl Uint8 {
    pub open spec fn spec_value(self) -> u8 {
        match self {
            Uint8::Variable(v) => v.value,
            Uint8::Constant(c) => c,
        }
    }

    pub open spec fn wf_in(self, c: Composer) -> bool {
        match self {
            Uint8::Variable(v) => v.wf_in(c),
            Uint8::Constant(_) => true,
        }
    }

    pub fn value(&self) -> (r: u8)
        ensures
            r == self.spec_value(),
    {
        match self {
            Uint8::Variable(v) => v.value,
            Uint8::Constant(c) => *c,
        }
    }

    /// `self & other`. Two constants give a constant and leave the build as
    /// it was; otherwise one fresh output variable and one lookup row are
    /// added (see `op_row_added`).
    pub fn and(&self, cs: &mut ConstraintSystem, other: &Uint8) -> (r: Result<Uint8, LookupError>)
        requires
            old(cs).wf(),
            old(cs).has_room(),
            self.wf_in(old(cs).composer),
            other.wf_in(old(cs).composer),
        ensures
            final(cs).wf(),
            final(cs).lookup_table == old(cs).lookup_table,
            extends(old(cs).composer, final(cs).composer),
            r is Err <==> !rows_subset(and_rows_needed(*self, *other), old(cs).lookup_table.value()),
            r is Err ==> final(cs).composer == old(cs).composer,
            both_constant(*self, *other) ==> r == Ok::<Uint8, LookupError>(Uint8::Constant(self.spec_value() & other.spec_value()))
                && final(cs).composer == old(cs).composer,
            !both_constant(*self, *other) ==> !(r matches Ok(Uint8::Constant(_))),
            r matches Ok(Uint8::Variable(v)) ==> v.value == self.spec_value() & other.spec_value() && v.wf_in(final(cs).composer)
                && v.var == Variable::Var(old(cs).composer.var_count() as usize)
                && op_row_added(old(cs).composer, final(cs).composer, *self, *other, v.var, v.value as int)
                && final(cs).composer.rows() == old(cs).composer.rows() + 1,
    {
        match self {
            Uint8::Variable(x) => match other {
                Uint8::Variable(y) => match x.and(cs, y) {
                    Ok(v) => Ok(Uint8::Variable(v)),
                    Err(e) => Err(e),
                },
                Uint8::Constant(y) => match x.and_with_const(cs, *y) {
                    Ok(v) => Ok(Uint8::Variable(v)),
                    Err(e) => Err(e),
                },
            },
            Uint8::Constant(x) => match other {
                Uint8::Variable(y) => {
                    proof {
                        let xv: u8 = *x;
                        let yv: u8 = y.value;
                        assert(yv & xv == xv & yv) by (bit_vector);
                    }
                    match y.and_with_const(cs, *x) {
                        Ok(v) => Ok(Uint8::Variable(v)),
                        Err(e) => Err(e),
                    }
                },
                Uint8::Constant(y) => Ok(Uint8::Constant(*x & *y)),
            },
        }
    }

    /// `self ^ other`. Two constants give a constant and leave the build as
    /// it was; otherwise one fresh output variable and one lookup row are
    /// added (see `op_row_added`).
    pub fn xor(&self, cs: &mut ConstraintSystem, other: &Uint8) -> (r: Result<Uint8, LookupError>)
        requires
            old(cs).wf(),
            old(cs).has_room(),
            self.wf_in(old(cs).composer),
            other.wf_in(old(cs).composer),
        ensures
            final(cs).wf(),
            final(cs).lookup_table == old(cs).lookup_table,
            extends(old(cs).composer, final(cs).composer),
            r is Err <==> !rows_subset(xor_rows_needed(*self, *other), old(cs).lookup_table.value()),
            r is Err ==> final(cs).composer == old(cs).composer,
            both_constant(*self, *other) ==> r == Ok::<Uint8, LookupError>(Uint8::Constant(self.spec_value() ^ other.spec_value()))
                && final(cs).composer == old(cs).composer,
            !both_constant(*self, *other) ==> !(r matches Ok(Uint8::Constant(_))),
            r matches Ok(Uint8::Variable(v)) ==> v.value == self.spec_value() ^ other.spec_value() && v.wf_in(final(cs).composer)
                && v.var == Variable::Var(old(cs).composer.var_count() as usize)
                && op_row_added(old(cs).composer, final(cs).composer, *self, *other, v.var, v.value as int)
                && final(cs).composer.rows() == old(cs).composer.rows() + 1,
    {
        match self {
            Uint8::Variable(x) => match other {
                Uint8::Variable(y) => match x.xor(cs, y) {
                    Ok(v) => Ok(Uint8::Variable(v)),
                    Err(e) => Err(e),
                },
                Uint8::Constant(y) => match x.xor_with_const(cs, *y) {
                    Ok(v) => Ok(Uint8::Variable(v)),
                    Err(e) => Err(e),
                },
            },
            Uint8::Constant(x) => match other {
                Uint8::Variable(y) => {
                    proof {
                        let xv: u8 = *x;
                        let yv: u8 = y.value;
                        assert(yv ^ xv == xv ^ yv) by (bit_vector);
                    }
                    match y.xor_with_const(cs, *x) {
                        Ok(v) => Ok(Uint8::Variable(v)),
                        Err(e) => Err(e),
                    }
                },
                Uint8::Constant(y) => Ok(Uint8::Constant(*x ^ *y)),
            },
        }
    }

    /// `(!self) & other`. Two constants give a constant and leave the build as
    /// it was; otherwise one fresh output variable and one lookup row are
    /// added (see `op_row_added`).
    pub fn not_and(&self, cs: &mut ConstraintSystem, other: &Uint8) -> (r: Result<Uint8, LookupError>)
        requires
            old(cs).wf(),
            old(cs).has_room(),
            self.wf_in(old(cs).composer),
            other.wf_in(old(cs).composer),
        ensures
            final(cs).wf(),
            final(cs).lookup_table == old(cs).lookup_table,
            extends(old(cs).composer, final(cs).composer),
            r is Err <==> !rows_subset(not_and_rows_needed(*self, *other), old(cs).lookup_table.value()),
            r is Err ==> final(cs).composer == old(cs).composer,
            both_constant(*self, *other) ==> r == Ok::<Uint8, LookupError>(Uint8::Constant((!self.spec_value()) & other.spec_value()))
                && final(cs).composer == old(cs).composer,
            !both_constant(*self, *other) ==> !(r matches Ok(Uint8::Constant(_))),
            r matches Ok(Uint8::Variable(v)) ==> v.value == (!self.spec_value()) & other.spec_value() && v.wf_in(final(cs).composer)
                && v.var == Variable::Var(old(cs).composer.var_count() as usize)
                && op_row_added(old(cs).composer, final(cs).composer, *self, *other, v.var, v.value as int)
                && final(cs).composer.rows() == old(cs).composer.rows() + 1,
    {
        match self {
            Uint8::Variable(x) => match other {
                Uint8::Variable(y) => match x.not_and(cs, y) {
                    Ok(v) => Ok(Uint8::Variable(v)),
                    Err(e) => Err(e),
                },
                Uint8::Constant(y) => match x.not_and_with_const(cs, *y) {
                    Ok(v) => Ok(Uint8::Variable(v)),
                    Err(e) => Err(e),
                },
            },
            Uint8::Constant(x) => match other {
                Uint8::Variable(y) => {
                    proof {
                        let xv: u8 = *x;
                        let yv: u8 = y.value;
                        assert(yv & !xv == (!xv) & yv) by (bit_vector);
                    }
                    match y.and_with_const(cs, !*x) {
                        Ok(v) => Ok(Uint8::Variable(v)),
                        Err(e) => Err(e),
                    }
                },
                Uint8::Constant(y) => Ok(Uint8::Constant((!*x) & *y)),
            },
        }
    }
}

} // verus!
