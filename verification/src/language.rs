//! Languages, ordered as the tokenizer's `Language` type orders them.
//!
//! The first languages come in the order of `charabia::Language`; the
//! languages of the locale table that it does not know follow.

use vstd::prelude::*;
use crate::text::same_text;

verus! {

/// How many languages there are.
pub const LANGUAGE_COUNT: u16 = 181;

/// A language, named by its ISO 639-3 code. Languages are ordered by their
/// place in the order of languages.
#[derive(PartialEq, Eq, Structural, Clone, Copy, Debug, Hash, PartialOrd, Ord)]
pub enum Language {
    Zho,
    Epo,
    Eng,
    Rus,
    Cmn,
    Spa,
    Por,
    Ita,
    Ben,
    Fra,
    Deu,
    Ukr,
    Kat,
    Ara,
    Hin,
    Jpn,
    Heb,
    Yid,
    Pol,
    Amh,
    Jav,
    Kor,
    Nob,
    Dan,
    Swe,
    Fin,
    Tur,
    Nld,
    Hun,
    Ces,
    Ell,
    Bul,
    Bel,
    Mar,
    Kan,
    Ron,
    Slv,
    Hrv,
    Srp,
    Mkd,
    Lit,
    Lav,
    Est,
    Tam,
    Vie,
    Urd,
    Tha,
    Guj,
    Uzb,
    Pan,
    Aze,
    Ind,
    Tel,
    Pes,
    Mal,
    Ori,
    Mya,
    Nep,
    Sin,
    Khm,
    Tuk,
    Aka,
    Zul,
    Sna,
    Afr,
    Lat,
    Slk,
    Cat,
    Tgl,
    Hye,
    Cym,
    Kaz,
    Abk,
    Bam,
    Bre,
    Chu,
    Eus,
    Fao,
    Gla,
    Gle,
    Glg,
    Glv,
    Hat,
    Hau,
    Isl,
    Kir,
    Nor,
    Oci,
    San,
    Sme,
    Snd,
    Sqi,
    Tat,
    Uig,
    Wol,
    Yor,
    Abq,
    Aii,
    Ajp,
    Akk,
    Aln,
    Apu,
    Aqz,
    Arb,
    Arh,
    Arr,
    Axm,
    Azz,
    Bho,
    Bor,
    Brh,
    Bxr,
    Ceb,
    Cop,
    Cpg,
    Ctn,
    Egy,
    Eme,
    Ess,
    Frm,
    Fro,
    Got,
    Grc,
    Gub,
    Gun,
    Gwi,
    Gya,
    Hbo,
    Hit,
    Hsb,
    Hyw,
    Kbc,
    Kmr,
    Koi,
    Kpv,
    Krl,
    Lij,
    Lzh,
    Mdf,
    Myu,
    Myv,
    Naq,
    Nds,
    Nhi,
    Nmf,
    Oge,
    Olo,
    Orv,
    Ota,
    Pay,
    Pcm,
    Pro,
    Pst,
    Qaf,
    Qpm,
    Qtd,
    Qti,
    Quc,
    Ruc,
    Sab,
    Sah,
    Say,
    Scn,
    Sga,
    Sjo,
    Sms,
    Ssp,
    Tpn,
    Urb,
    Vep,
    Wbp,
    Wuu,
    Xav,
    Xcl,
    Xnr,
    Xpg,
    Xum,
    Yrk,
    Yrl,
    Yue,
    Zza,
}

impl Language {
    /// The place of the language in the order of languages.
    pub open spec fn position(self) -> nat {
        match self {
            Language::Zho => 0,
            Language::Epo => 1,
            Language::Eng => 2,
            Language::Rus => 3,
            Language::Cmn => 4,
            Language::Spa => 5,
            Language::Por => 6,
            Language::Ita => 7,
            Language::Ben => 8,
            Language::Fra => 9,
            Language::Deu => 10,
            Language::Ukr => 11,
            Language::Kat => 12,
            Language::Ara => 13,
            Language::Hin => 14,
            Language::Jpn => 15,
            Language::Heb => 16,
            Language::Yid => 17,
            Language::Pol => 18,
            Language::Amh => 19,
            Language::Jav => 20,
            Language::Kor => 21,
            Language::Nob => 22,
            Language::Dan => 23,
            Language::Swe => 24,
            Language::Fin => 25,
            Language::Tur => 26,
            Language::Nld => 27,
            Language::Hun => 28,
            Language::Ces => 29,
            Language::Ell => 30,
            Language::Bul => 31,
            Language::Bel => 32,
            Language::Mar => 33,
            Language::Kan => 34,
            Language::Ron => 35,
            Language::Slv => 36,
            Language::Hrv => 37,
            Language::Srp => 38,
            Language::Mkd => 39,
            Language::Lit => 40,
            Language::Lav => 41,
            Language::Est => 42,
            Language::Tam => 43,
            Language::Vie => 44,
            Language::Urd => 45,
            Language::Tha => 46,
            Language::Guj => 47,
            Language::Uzb => 48,
            Language::Pan => 49,
            Language::Aze => 50,
            Language::Ind => 51,
            Language::Tel => 52,
            Language::Pes => 53,
            Language::Mal => 54,
            Language::Ori => 55,
            Language::Mya => 56,
            Language::Nep => 57,
            Language::Sin => 58,
            Language::Khm => 59,
            Language::Tuk => 60,
            Language::Aka => 61,
            Language::Zul => 62,
            Language::Sna => 63,
            Language::Afr => 64,
            Language::Lat => 65,
            Language::Slk => 66,
            Language::Cat => 67,
            Language::Tgl => 68,
            Language::Hye => 69,
            Language::Cym => 70,
            Language::Kaz => 71,
            Language::Abk => 72,
            Language::Bam => 73,
            Language::Bre => 74,
            Language::Chu => 75,
            Language::Eus => 76,
            Language::Fao => 77,
            Language::Gla => 78,
            Language::Gle => 79,
            Language::Glg => 80,
            Language::Glv => 81,
            Language::Hat => 82,
            Language::Hau => 83,
            Language::Isl => 84,
            Language::Kir => 85,
            Language::Nor => 86,
            Language::Oci => 87,
            Language::San => 88,
            Language::Sme => 89,
            Language::Snd => 90,
            Language::Sqi => 91,
            Language::Tat => 92,
            Language::Uig => 93,
            Language::Wol => 94,
            Language::Yor => 95,
            Language::Abq => 96,
            Language::Aii => 97,
            Language::Ajp => 98,
            Language::Akk => 99,
            Language::Aln => 100,
            Language::Apu => 101,
            Language::Aqz => 102,
            Language::Arb => 103,
            Language::Arh => 104,
            Language::Arr => 105,
            Language::Axm => 106,
            Language::Azz => 107,
            Language::Bho => 108,
            Language::Bor => 109,
            Language::Brh => 110,
            Language::Bxr => 111,
            Language::Ceb => 112,
            Language::Cop => 113,
            Language::Cpg => 114,
            Language::Ctn => 115,
            Language::Egy => 116,
            Language::Eme => 117,
            Language::Ess => 118,
            Language::Frm => 119,
            Language::Fro => 120,
            Language::Got => 121,
            Language::Grc => 122,
            Language::Gub => 123,
            Language::Gun => 124,
            Language::Gwi => 125,
            Language::Gya => 126,
            Language::Hbo => 127,
            Language::Hit => 128,
            Language::Hsb => 129,
            Language::Hyw => 130,
            Language::Kbc => 131,
            Language::Kmr => 132,
            Language::Koi => 133,
            Language::Kpv => 134,
            Language::Krl => 135,
            Language::Lij => 136,
            Language::Lzh => 137,
            Language::Mdf => 138,
            Language::Myu => 139,
            Language::Myv => 140,
            Language::Naq => 141,
            Language::Nds => 142,
            Language::Nhi => 143,
            Language::Nmf => 144,
            Language::Oge => 145,
            Language::Olo => 146,
            Language::Orv => 147,
            Language::Ota => 148,
            Language::Pay => 149,
            Language::Pcm => 150,
            Language::Pro => 151,
            Language::Pst => 152,
            Language::Qaf => 153,
            Language::Qpm => 154,
            Language::Qtd => 155,
            Language::Qti => 156,
            Language::Quc => 157,
            Language::Ruc => 158,
            Language::Sab => 159,
            Language::Sah => 160,
            Language::Say => 161,
            Language::Scn => 162,
            Language::Sga => 163,
            Language::Sjo => 164,
            Language::Sms => 165,
            Language::Ssp => 166,
            Language::Tpn => 167,
            Language::Urb => 168,
            Language::Vep => 169,
            Language::Wbp => 170,
            Language::Wuu => 171,
            Language::Xav => 172,
            Language::Xcl => 173,
            Language::Xnr => 174,
            Language::Xpg => 175,
            Language::Xum => 176,
            Language::Yrk => 177,
            Language::Yrl => 178,
            Language::Yue => 179,
            Language::Zza => 180,
        }
    }

    /// The language at place `n` of the order.
    pub open spec fn at_position(n: nat) -> Language {
        if n == 0 { Language::Zho }
        else if n == 1 { Language::Epo }
        else if n == 2 { Language::Eng }
        else if n == 3 { Language::Rus }
        else if n == 4 { Language::Cmn }
        else if n == 5 { Language::Spa }
        else if n == 6 { Language::Por }
        else if n == 7 { Language::Ita }
        else if n == 8 { Language::Ben }
        else if n == 9 { Language::Fra }
        else if n == 10 { Language::Deu }
        else if n == 11 { Language::Ukr }
        else if n == 12 { Language::Kat }
        else if n == 13 { Language::Ara }
        else if n == 14 { Language::Hin }
        else if n == 15 { Language::Jpn }
        else if n == 16 { Language::Heb }
        else if n == 17 { Language::Yid }
        else if n == 18 { Language::Pol }
        else if n == 19 { Language::Amh }
        else if n == 20 { Language::Jav }
        else if n == 21 { Language::Kor }
        else if n == 22 { Language::Nob }
        else if n == 23 { Language::Dan }
        else if n == 24 { Language::Swe }
        else if n == 25 { Language::Fin }
        else if n == 26 { Language::Tur }
        else if n == 27 { Language::Nld }
        else if n == 28 { Language::Hun }
        else if n == 29 { Language::Ces }
        else if n == 30 { Language::Ell }
        else if n == 31 { Language::Bul }
        else if n == 32 { Language::Bel }
        else if n == 33 { Language::Mar }
        else if n == 34 { Language::Kan }
        else if n == 35 { Language::Ron }
        else if n == 36 { Language::Slv }
        else if n == 37 { Language::Hrv }
        else if n == 38 { Language::Srp }
        else if n == 39 { Language::Mkd }
        else if n == 40 { Language::Lit }
        else if n == 41 { Language::Lav }
        else if n == 42 { Language::Est }
        else if n == 43 { Language::Tam }
        else if n == 44 { Language::Vie }
        else if n == 45 { Language::Urd }
        else if n == 46 { Language::Tha }
        else if n == 47 { Language::Guj }
        else if n == 48 { Language::Uzb }
        else if n == 49 { Language::Pan }
        else if n == 50 { Language::Aze }
        else if n == 51 { Language::Ind }
        else if n == 52 { Language::Tel }
        else if n == 53 { Language::Pes }
        else if n == 54 { Language::Mal }
        else if n == 55 { Language::Ori }
        else if n == 56 { Language::Mya }
        else if n == 57 { Language::Nep }
        else if n == 58 { Language::Sin }
        else if n == 59 { Language::Khm }
        else if n == 60 { Language::Tuk }
        else if n == 61 { Language::Aka }
        else if n == 62 { Language::Zul }
        else if n == 63 { Language::Sna }
        else if n == 64 { Language::Afr }
        else if n == 65 { Language::Lat }
        else if n == 66 { Language::Slk }
        else if n == 67 { Language::Cat }
        else if n == 68 { Language::Tgl }
        else if n == 69 { Language::Hye }
        else if n == 70 { Language::Cym }
        else if n == 71 { Language::Kaz }
        else if n == 72 { Language::Abk }
        else if n == 73 { Language::Bam }
        else if n == 74 { Language::Bre }
        else if n == 75 { Language::Chu }
        else if n == 76 { Language::Eus }
        else if n == 77 { Language::Fao }
        else if n == 78 { Language::Gla }
        else if n == 79 { Language::Gle }
        else if n == 80 { Language::Glg }
        else if n == 81 { Language::Glv }
        else if n == 82 { Language::Hat }
        else if n == 83 { Language::Hau }
        else if n == 84 { Language::Isl }
        else if n == 85 { Language::Kir }
        else if n == 86 { Language::Nor }
        else if n == 87 { Language::Oci }
        else if n == 88 { Language::San }
        else if n == 89 { Language::Sme }
        else if n == 90 { Language::Snd }
        else if n == 91 { Language::Sqi }
        else if n == 92 { Language::Tat }
        else if n == 93 { Language::Uig }
        else if n == 94 { Language::Wol }
        else if n == 95 { Language::Yor }
        else if n == 96 { Language::Abq }
        else if n == 97 { Language::Aii }
        else if n == 98 { Language::Ajp }
        else if n == 99 { Language::Akk }
        else if n == 100 { Language::Aln }
        else if n == 101 { Language::Apu }
        else if n == 102 { Language::Aqz }
        else if n == 103 { Language::Arb }
        else if n == 104 { Language::Arh }
        else if n == 105 { Language::Arr }
        else if n == 106 { Language::Axm }
        else if n == 107 { Language::Azz }
        else if n == 108 { Language::Bho }
        else if n == 109 { Language::Bor }
        else if n == 110 { Language::Brh }
        else if n == 111 { Language::Bxr }
        else if n == 112 { Language::Ceb }
        else if n == 113 { Language::Cop }
        else if n == 114 { Language::Cpg }
        else if n == 115 { Language::Ctn }
        else if n == 116 { Language::Egy }
        else if n == 117 { Language::Eme }
        else if n == 118 { Language::Ess }
        else if n == 119 { Language::Frm }
        else if n == 120 { Language::Fro }
        else if n == 121 { Language::Got }
        else if n == 122 { Language::Grc }
        else if n == 123 { Language::Gub }
        else if n == 124 { Language::Gun }
        else if n == 125 { Language::Gwi }
        else if n == 126 { Language::Gya }
        else if n == 127 { Language::Hbo }
        else if n == 128 { Language::Hit }
        else if n == 129 { Language::Hsb }
        else if n == 130 { Language::Hyw }
        else if n == 131 { Language::Kbc }
        else if n == 132 { Language::Kmr }
        else if n == 133 { Language::Koi }
        else if n == 134 { Language::Kpv }
        else if n == 135 { Language::Krl }
        else if n == 136 { Language::Lij }
        else if n == 137 { Language::Lzh }
        else if n == 138 { Language::Mdf }
        else if n == 139 { Language::Myu }
        else if n == 140 { Language::Myv }
        else if n == 141 { Language::Naq }
        else if n == 142 { Language::Nds }
        else if n == 143 { Language::Nhi }
        else if n == 144 { Language::Nmf }
        else if n == 145 { Language::Oge }
        else if n == 146 { Language::Olo }
        else if n == 147 { Language::Orv }
        else if n == 148 { Language::Ota }
        else if n == 149 { Language::Pay }
        else if n == 150 { Language::Pcm }
        else if n == 151 { Language::Pro }
        else if n == 152 { Language::Pst }
        else if n == 153 { Language::Qaf }
        else if n == 154 { Language::Qpm }
        else if n == 155 { Language::Qtd }
        else if n == 156 { Language::Qti }
        else if n == 157 { Language::Quc }
        else if n == 158 { Language::Ruc }
        else if n == 159 { Language::Sab }
        else if n == 160 { Language::Sah }
        else if n == 161 { Language::Say }
        else if n == 162 { Language::Scn }
        else if n == 163 { Language::Sga }
        else if n == 164 { Language::Sjo }
        else if n == 165 { Language::Sms }
        else if n == 166 { Language::Ssp }
        else if n == 167 { Language::Tpn }
        else if n == 168 { Language::Urb }
        else if n == 169 { Language::Vep }
        else if n == 170 { Language::Wbp }
        else if n == 171 { Language::Wuu }
        else if n == 172 { Language::Xav }
        else if n == 173 { Language::Xcl }
        else if n == 174 { Language::Xnr }
        else if n == 175 { Language::Xpg }
        else if n == 176 { Language::Xum }
        else if n == 177 { Language::Yrk }
        else if n == 178 { Language::Yrl }
        else if n == 179 { Language::Yue }
        else { Language::Zza }
    }

    /// The ISO 639-3 code of the language.
    pub open spec fn iso_code(self) -> Seq<char> {
        match self {
            Language::Zho => seq!['z', 'h', 'o'],
            Language::Epo => seq!['e', 'p', 'o'],
            Language::Eng => seq!['e', 'n', 'g'],
            Language::Rus => seq!['r', 'u', 's'],
            Language::Cmn => seq!['c', 'm', 'n'],
            Language::Spa => seq!['s', 'p', 'a'],
            Language::Por => seq!['p', 'o', 'r'],
            Language::Ita => seq!['i', 't', 'a'],
            Language::Ben => seq!['b', 'e', 'n'],
            Language::Fra => seq!['f', 'r', 'a'],
            Language::Deu => seq!['d', 'e', 'u'],
            Language::Ukr => seq!['u', 'k', 'r'],
            Language::Kat => seq!['k', 'a', 't'],
            Language::Ara => seq!['a', 'r', 'a'],
            Language::Hin => seq!['h', 'i', 'n'],
            Language::Jpn => seq!['j', 'p', 'n'],
            Language::Heb => seq!['h', 'e', 'b'],
            Language::Yid => seq!['y', 'i', 'd'],
            Language::Pol => seq!['p', 'o', 'l'],
            Language::Amh => seq!['a', 'm', 'h'],
            Language::Jav => seq!['j', 'a', 'v'],
            Language::Kor => seq!['k', 'o', 'r'],
            Language::Nob => seq!['n', 'o', 'b'],
            Language::Dan => seq!['d', 'a', 'n'],
            Language::Swe => seq!['s', 'w', 'e'],
            Language::Fin => seq!['f', 'i', 'n'],
            Language::Tur => seq!['t', 'u', 'r'],
            Language::Nld => seq!['n', 'l', 'd'],
            Language::Hun => seq!['h', 'u', 'n'],
            Language::Ces => seq!['c', 'e', 's'],
            Language::Ell => seq!['e', 'l', 'l'],
            Language::Bul => seq!['b', 'u', 'l'],
            Language::Bel => seq!['b', 'e', 'l'],
            Language::Mar => seq!['m', 'a', 'r'],
            Language::Kan => seq!['k', 'a', 'n'],
            Language::Ron => seq!['r', 'o', 'n'],
            Language::Slv => seq!['s', 'l', 'v'],
            Language::Hrv => seq!['h', 'r', 'v'],
            Language::Srp => seq!['s', 'r', 'p'],
            Language::Mkd => seq!['m', 'k', 'd'],
            Language::Lit => seq!['l', 'i', 't'],
            Language::Lav => seq!['l', 'a', 'v'],
            Language::Est => seq!['e', 's', 't'],
            Language::Tam => seq!['t', 'a', 'm'],
            Language::Vie => seq!['v', 'i', 'e'],
            Language::Urd => seq!['u', 'r', 'd'],
            Language::Tha => seq!['t', 'h', 'a'],
            Language::Guj => seq!['g', 'u', 'j'],
            Language::Uzb => seq!['u', 'z', 'b'],
            Language::Pan => seq!['p', 'a', 'n'],
            Language::Aze => seq!['a', 'z', 'e'],
            Language::Ind => seq!['i', 'n', 'd'],
            Language::Tel => seq!['t', 'e', 'l'],
            Language::Pes => seq!['p', 'e', 's'],
            Language::Mal => seq!['m', 'a', 'l'],
            Language::Ori => seq!['o', 'r', 'i'],
            Language::Mya => seq!['m', 'y', 'a'],
            Language::Nep => seq!['n', 'e', 'p'],
            Language::Sin => seq!['s', 'i', 'n'],
            Language::Khm => seq!['k', 'h', 'm'],
            Language::Tuk => seq!['t', 'u', 'k'],
            Language::Aka => seq!['a', 'k', 'a'],
            Language::Zul => seq!['z', 'u', 'l'],
            Language::Sna => seq!['s', 'n', 'a'],
            Language::Afr => seq!['a', 'f', 'r'],
            Language::Lat => seq!['l', 'a', 't'],
            Language::Slk => seq!['s', 'l', 'k'],
            Language::Cat => seq!['c', 'a', 't'],
            Language::Tgl => seq!['t', 'g', 'l'],
            Language::Hye => seq!['h', 'y', 'e'],
            Language::Cym => seq!['c', 'y', 'm'],
            Language::Kaz => seq!['k', 'a', 'z'],
            Language::Abk => seq!['a', 'b', 'k'],
            Language::Bam => seq!['b', 'a', 'm'],
            Language::Bre => seq!['b', 'r', 'e'],
            Language::Chu => seq!['c', 'h', 'u'],
            Language::Eus => seq!['e', 'u', 's'],
            Language::Fao => seq!['f', 'a', 'o'],
            Language::Gla => seq!['g', 'l', 'a'],
            Language::Gle => seq!['g', 'l', 'e'],
            Language::Glg => seq!['g', 'l', 'g'],
            Language::Glv => seq!['g', 'l', 'v'],
            Language::Hat => seq!['h', 'a', 't'],
            Language::Hau => seq!['h', 'a', 'u'],
            Language::Isl => seq!['i', 's', 'l'],
            Language::Kir => seq!['k', 'i', 'r'],
            Language::Nor => seq!['n', 'o', 'r'],
            Language::Oci => seq!['o', 'c', 'i'],
            Language::San => seq!['s', 'a', 'n'],
            Language::Sme => seq!['s', 'm', 'e'],
            Language::Snd => seq!['s', 'n', 'd'],
            Language::Sqi => seq!['s', 'q', 'i'],
            Language::Tat => seq!['t', 'a', 't'],
            Language::Uig => seq!['u', 'i', 'g'],
            Language::Wol => seq!['w', 'o', 'l'],
            Language::Yor => seq!['y', 'o', 'r'],
            Language::Abq => seq!['a', 'b', 'q'],
            Language::Aii => seq!['a', 'i', 'i'],
            Language::Ajp => seq!['a', 'j', 'p'],
            Language::Akk => seq!['a', 'k', 'k'],
            Language::Aln => seq!['a', 'l', 'n'],
            Language::Apu => seq!['a', 'p', 'u'],
            Language::Aqz => seq!['a', 'q', 'z'],
            Language::Arb => seq!['a', 'r', 'b'],
            Language::Arh => seq!['a', 'r', 'h'],
            Language::Arr => seq!['a', 'r', 'r'],
            Language::Axm => seq!['a', 'x', 'm'],
            Language::Azz => seq!['a', 'z', 'z'],
            Language::Bho => seq!['b', 'h', 'o'],
            Language::Bor => seq!['b', 'o', 'r'],
            Language::Brh => seq!['b', 'r', 'h'],
            Language::Bxr => seq!['b', 'x', 'r'],
            Language::Ceb => seq!['c', 'e', 'b'],
            Language::Cop => seq!['c', 'o', 'p'],
            Language::Cpg => seq!['c', 'p', 'g'],
            Language::Ctn => seq!['c', 't', 'n'],
            Language::Egy => seq!['e', 'g', 'y'],
            Language::Eme => seq!['e', 'm', 'e'],
            Language::Ess => seq!['e', 's', 's'],
            Language::Frm => seq!['f', 'r', 'm'],
            Language::Fro => seq!['f', 'r', 'o'],
            Language::Got => seq!['g', 'o', 't'],
            Language::Grc => seq!['g', 'r', 'c'],
            Language::Gub => seq!['g', 'u', 'b'],
            Language::Gun => seq!['g', 'u', 'n'],
            Language::Gwi => seq!['g', 'w', 'i'],
            Language::Gya => seq!['g', 'y', 'a'],
            Language::Hbo => seq!['h', 'b', 'o'],
            Language::Hit => seq!['h', 'i', 't'],
            Language::Hsb => seq!['h', 's', 'b'],
            Language::Hyw => seq!['h', 'y', 'w'],
            Language::Kbc => seq!['k', 'b', 'c'],
            Language::Kmr => seq!['k', 'm', 'r'],
            Language::Koi => seq!['k', 'o', 'i'],
            Language::Kpv => seq!['k', 'p', 'v'],
            Language::Krl => seq!['k', 'r', 'l'],
            Language::Lij => seq!['l', 'i', 'j'],
            Language::Lzh => seq!['l', 'z', 'h'],
            Language::Mdf => seq!['m', 'd', 'f'],
            Language::Myu => seq!['m', 'y', 'u'],
            Language::Myv => seq!['m', 'y', 'v'],
            Language::Naq => seq!['n', 'a', 'q'],
            Language::Nds => seq!['n', 'd', 's'],
            Language::Nhi => seq!['n', 'h', 'i'],
            Language::Nmf => seq!['n', 'm', 'f'],
            Language::Oge => seq!['o', 'g', 'e'],
            Language::Olo => seq!['o', 'l', 'o'],
            Language::Orv => seq!['o', 'r', 'v'],
            Language::Ota => seq!['o', 't', 'a'],
            Language::Pay => seq!['p', 'a', 'y'],
            Language::Pcm => seq!['p', 'c', 'm'],
            Language::Pro => seq!['p', 'r', 'o'],
            Language::Pst => seq!['p', 's', 't'],
            Language::Qaf => seq!['q', 'a', 'f'],
            Language::Qpm => seq!['q', 'p', 'm'],
            Language::Qtd => seq!['q', 't', 'd'],
            Language::Qti => seq!['q', 't', 'i'],
            Language::Quc => seq!['q', 'u', 'c'],
            Language::Ruc => seq!['r', 'u', 'c'],
            Language::Sab => seq!['s', 'a', 'b'],
            Language::Sah => seq!['s', 'a', 'h'],
            Language::Say => seq!['s', 'a', 'y'],
            Language::Scn => seq!['s', 'c', 'n'],
            Language::Sga => seq!['s', 'g', 'a'],
            Language::Sjo => seq!['s', 'j', 'o'],
            Language::Sms => seq!['s', 'm', 's'],
            Language::Ssp => seq!['s', 's', 'p'],
            Language::Tpn => seq!['t', 'p', 'n'],
            Language::Urb => seq!['u', 'r', 'b'],
            Language::Vep => seq!['v', 'e', 'p'],
            Language::Wbp => seq!['w', 'b', 'p'],
            Language::Wuu => seq!['w', 'u', 'u'],
            Language::Xav => seq!['x', 'a', 'v'],
            Language::Xcl => seq!['x', 'c', 'l'],
            Language::Xnr => seq!['x', 'n', 'r'],
            Language::Xpg => seq!['x', 'p', 'g'],
            Language::Xum => seq!['x', 'u', 'm'],
            Language::Yrk => seq!['y', 'r', 'k'],
            Language::Yrl => seq!['y', 'r', 'l'],
            Language::Yue => seq!['y', 'u', 'e'],
            Language::Zza => seq!['z', 'z', 'a'],
        }
    }

    /// The two-letter ISO 639-1 code by which the language is named, where it
    /// has one: `fa`, the code of Persian, names Iranian Persian.
    pub open spec fn iso_639_1(self) -> Option<Seq<char>> {
        match self {
            Language::Zho => Some(seq!['z', 'h']),
            Language::Epo => Some(seq!['e', 'o']),
            Language::Eng => Some(seq!['e', 'n']),
            Language::Rus => Some(seq!['r', 'u']),
            Language::Cmn => None,
            Language::Spa => Some(seq!['e', 's']),
            Language::Por => Some(seq!['p', 't']),
            Language::Ita => Some(seq!['i', 't']),
            Language::Ben => Some(seq!['b', 'n']),
            Language::Fra => Some(seq!['f', 'r']),
            Language::Deu => Some(seq!['d', 'e']),
            Language::Ukr => Some(seq!['u', 'k']),
            Language::Kat => Some(seq!['k', 'a']),
            Language::Ara => Some(seq!['a', 'r']),
            Language::Hin => Some(seq!['h', 'i']),
            Language::Jpn => Some(seq!['j', 'a']),
            Language::Heb => Some(seq!['h', 'e']),
            Language::Yid => Some(seq!['y', 'i']),
            Language::Pol => Some(seq!['p', 'l']),
            Language::Amh => Some(seq!['a', 'm']),
            Language::Jav => Some(seq!['j', 'v']),
            Language::Kor => Some(seq!['k', 'o']),
            Language::Nob => Some(seq!['n', 'b']),
            Language::Dan => Some(seq!['d', 'a']),
            Language::Swe => Some(seq!['s', 'v']),
            Language::Fin => Some(seq!['f', 'i']),
            Language::Tur => Some(seq!['t', 'r']),
            Language::Nld => Some(seq!['n', 'l']),
            Language::Hun => Some(seq!['h', 'u']),
            Language::Ces => Some(seq!['c', 's']),
            Language::Ell => Some(seq!['e', 'l']),
            Language::Bul => Some(seq!['b', 'g']),
            Language::Bel => Some(seq!['b', 'e']),
            Language::Mar => Some(seq!['m', 'r']),
            Language::Kan => Some(seq!['k', 'n']),
            Language::Ron => Some(seq!['r', 'o']),
            Language::Slv => Some(seq!['s', 'l']),
            Language::Hrv => Some(seq!['h', 'r']),
            Language::Srp => Some(seq!['s', 'r']),
            Language::Mkd => Some(seq!['m', 'k']),
            Language::Lit => Some(seq!['l', 't']),
            Language::Lav => Some(seq!['l', 'v']),
            Language::Est => Some(seq!['e', 't']),
            Language::Tam => Some(seq!['t', 'a']),
            Language::Vie => Some(seq!['v', 'i']),
            Language::Urd => Some(seq!['u', 'r']),
            Language::Tha => Some(seq!['t', 'h']),
            Language::Guj => Some(seq!['g', 'u']),
            Language::Uzb => Some(seq!['u', 'z']),
            Language::Pan => Some(seq!['p', 'a']),
            Language::Aze => Some(seq!['a', 'z']),
            Language::Ind => Some(seq!['i', 'd']),
            Language::Tel => Some(seq!['t', 'e']),
            Language::Pes => Some(seq!['f', 'a']),
            Language::Mal => Some(seq!['m', 'l']),
            Language::Ori => Some(seq!['o', 'r']),
            Language::Mya => Some(seq!['m', 'y']),
            Language::Nep => Some(seq!['n', 'e']),
            Language::Sin => Some(seq!['s', 'i']),
            Language::Khm => Some(seq!['k', 'm']),
            Language::Tuk => Some(seq!['t', 'k']),
            Language::Aka => Some(seq!['a', 'k']),
            Language::Zul => Some(seq!['z', 'u']),
            Language::Sna => Some(seq!['s', 'n']),
            Language::Afr => Some(seq!['a', 'f']),
            Language::Lat => Some(seq!['l', 'a']),
            Language::Slk => Some(seq!['s', 'k']),
            Language::Cat => Some(seq!['c', 'a']),
            Language::Tgl => Some(seq!['t', 'l']),
            Language::Hye => Some(seq!['h', 'y']),
            Language::Cym => Some(seq!['c', 'y']),
            Language::Kaz => Some(seq!['k', 'k']),
            Language::Abk => Some(seq!['a', 'b']),
            Language::Bam => Some(seq!['b', 'm']),
            Language::Bre => Some(seq!['b', 'r']),
            Language::Chu => Some(seq!['c', 'u']),
            Language::Eus => Some(seq!['e', 'u']),
            Language::Fao => Some(seq!['f', 'o']),
            Language::Gla => Some(seq!['g', 'd']),
            Language::Gle => Some(seq!['g', 'a']),
            Language::Glg => Some(seq!['g', 'l']),
            Language::Glv => Some(seq!['g', 'v']),
            Language::Hat => Some(seq!['h', 't']),
            Language::Hau => Some(seq!['h', 'a']),
            Language::Isl => Some(seq!['i', 's']),
            Language::Kir => Some(seq!['k', 'y']),
            Language::Nor => Some(seq!['n', 'o']),
            Language::Oci => Some(seq!['o', 'c']),
            Language::San => Some(seq!['s', 'a']),
            Language::Sme => Some(seq!['s', 'e']),
            Language::Snd => Some(seq!['s', 'd']),
            Language::Sqi => Some(seq!['s', 'q']),
            Language::Tat => Some(seq!['t', 't']),
            Language::Uig => Some(seq!['u', 'g']),
            Language::Wol => Some(seq!['w', 'o']),
            Language::Yor => Some(seq!['y', 'o']),
            Language::Abq => None,
            Language::Aii => None,
            Language::Ajp => None,
            Language::Akk => None,
            Language::Aln => None,
            Language::Apu => None,
            Language::Aqz => None,
            Language::Arb => None,
            Language::Arh => None,
            Language::Arr => None,
            Language::Axm => None,
            Language::Azz => None,
            Language::Bho => None,
            Language::Bor => None,
            Language::Brh => None,
            Language::Bxr => None,
            Language::Ceb => None,
            Language::Cop => None,
            Language::Cpg => None,
            Language::Ctn => None,
            Language::Egy => None,
            Language::Eme => None,
            Language::Ess => None,
            Language::Frm => None,
            Language::Fro => None,
            Language::Got => None,
            Language::Grc => None,
            Language::Gub => None,
            Language::Gun => None,
            Language::Gwi => None,
            Language::Gya => None,
            Language::Hbo => None,
            Language::Hit => None,
            Language::Hsb => None,
            Language::Hyw => None,
            Language::Kbc => None,
            Language::Kmr => None,
            Language::Koi => None,
            Language::Kpv => None,
            Language::Krl => None,
            Language::Lij => None,
            Language::Lzh => None,
            Language::Mdf => None,
            Language::Myu => None,
            Language::Myv => None,
            Language::Naq => None,
            Language::Nds => None,
            Language::Nhi => None,
            Language::Nmf => None,
            Language::Oge => None,
            Language::Olo => None,
            Language::Orv => None,
            Language::Ota => None,
            Language::Pay => None,
            Language::Pcm => None,
            Language::Pro => None,
            Language::Pst => None,
            Language::Qaf => None,
            Language::Qpm => None,
            Language::Qtd => None,
            Language::Qti => None,
            Language::Quc => None,
            Language::Ruc => None,
            Language::Sab => None,
            Language::Sah => None,
            Language::Say => None,
            Language::Scn => None,
            Language::Sga => None,
            Language::Sjo => None,
            Language::Sms => None,
            Language::Ssp => None,
            Language::Tpn => None,
            Language::Urb => None,
            Language::Vep => None,
            Language::Wbp => None,
            Language::Wuu => None,
            Language::Xav => None,
            Language::Xcl => None,
            Language::Xnr => None,
            Language::Xpg => None,
            Language::Xum => None,
            Language::Yrk => None,
            Language::Yrl => None,
            Language::Yue => None,
            Language::Zza => None,
        }
    }

    /// The place of a language in the order of languages is its place in the
    /// declaration of `Language`, the order that its derived `Ord` follows.
    pub proof fn lemma_order_is_declaration_order(self)
        ensures
            self.position() == self as nat,
    {
    }

    /// Every language has a place below `LANGUAGE_COUNT`, and the place names it.
    pub proof fn lemma_position(self)
        ensures
            self.position() < LANGUAGE_COUNT,
            Language::at_position(self.position()) == self,
    {
    }

    /// Two languages with one place are one language.
    pub proof fn lemma_position_injective(self, other: Language)
        ensures
            self.position() == other.position() ==> self == other,
    {
        self.lemma_position();
        other.lemma_position();
    }

    /// The place of the language in the order of languages.
    pub fn rank(&self) -> (r: u16)
        ensures
            r == self.position(),
    {
        match self {
            Language::Zho => 0,
            Language::Epo => 1,
            Language::Eng => 2,
            Language::Rus => 3,
            Language::Cmn => 4,
            Language::Spa => 5,
            Language::Por => 6,
            Language::Ita => 7,
            Language::Ben => 8,
            Language::Fra => 9,
            Language::Deu => 10,
            Language::Ukr => 11,
            Language::Kat => 12,
            Language::Ara => 13,
            Language::Hin => 14,
            Language::Jpn => 15,
            Language::Heb => 16,
            Language::Yid => 17,
            Language::Pol => 18,
            Language::Amh => 19,
            Language::Jav => 20,
            Language::Kor => 21,
            Language::Nob => 22,
            Language::Dan => 23,
            Language::Swe => 24,
            Language::Fin => 25,
            Language::Tur => 26,
            Language::Nld => 27,
            Language::Hun => 28,
            Language::Ces => 29,
            Language::Ell => 30,
            Language::Bul => 31,
            Language::Bel => 32,
            Language::Mar => 33,
            Language::Kan => 34,
            Language::Ron => 35,
            Language::Slv => 36,
            Language::Hrv => 37,
            Language::Srp => 38,
            Language::Mkd => 39,
            Language::Lit => 40,
            Language::Lav => 41,
            Language::Est => 42,
            Language::Tam => 43,
            Language::Vie => 44,
            Language::Urd => 45,
            Language::Tha => 46,
            Language::Guj => 47,
            Language::Uzb => 48,
            Language::Pan => 49,
            Language::Aze => 50,
            Language::Ind => 51,
            Language::Tel => 52,
            Language::Pes => 53,
            Language::Mal => 54,
            Language::Ori => 55,
            Language::Mya => 56,
            Language::Nep => 57,
            Language::Sin => 58,
            Language::Khm => 59,
            Language::Tuk => 60,
            Language::Aka => 61,
            Language::Zul => 62,
            Language::Sna => 63,
            Language::Afr => 64,
            Language::Lat => 65,
            Language::Slk => 66,
            Language::Cat => 67,
            Language::Tgl => 68,
            Language::Hye => 69,
            Language::Cym => 70,
            Language::Kaz => 71,
            Language::Abk => 72,
            Language::Bam => 73,
            Language::Bre => 74,
            Language::Chu => 75,
            Language::Eus => 76,
            Language::Fao => 77,
            Language::Gla => 78,
            Language::Gle => 79,
            Language::Glg => 80,
            Language::Glv => 81,
            Language::Hat => 82,
            Language::Hau => 83,
            Language::Isl => 84,
            Language::Kir => 85,
            Language::Nor => 86,
            Language::Oci => 87,
            Language::San => 88,
            Language::Sme => 89,
            Language::Snd => 90,
            Language::Sqi => 91,
            Language::Tat => 92,
            Language::Uig => 93,
            Language::Wol => 94,
            Language::Yor => 95,
            Language::Abq => 96,
            Language::Aii => 97,
            Language::Ajp => 98,
            Language::Akk => 99,
            Language::Aln => 100,
            Language::Apu => 101,
            Language::Aqz => 102,
            Language::Arb => 103,
            Language::Arh => 104,
            Language::Arr => 105,
            Language::Axm => 106,
            Language::Azz => 107,
            Language::Bho => 108,
            Language::Bor => 109,
            Language::Brh => 110,
            Language::Bxr => 111,
            Language::Ceb => 112,
            Language::Cop => 113,
            Language::Cpg => 114,
            Language::Ctn => 115,
            Language::Egy => 116,
            Language::Eme => 117,
            Language::Ess => 118,
            Language::Frm => 119,
            Language::Fro => 120,
            Language::Got => 121,
            Language::Grc => 122,
            Language::Gub => 123,
            Language::Gun => 124,
            Language::Gwi => 125,
            Language::Gya => 126,
            Language::Hbo => 127,
            Language::Hit => 128,
            Language::Hsb => 129,
            Language::Hyw => 130,
            Language::Kbc => 131,
            Language::Kmr => 132,
            Language::Koi => 133,
            Language::Kpv => 134,
            Language::Krl => 135,
            Language::Lij => 136,
            Language::Lzh => 137,
            Language::Mdf => 138,
            Language::Myu => 139,
            Language::Myv => 140,
            Language::Naq => 141,
            Language::Nds => 142,
            Language::Nhi => 143,
            Language::Nmf => 144,
            Language::Oge => 145,
            Language::Olo => 146,
            Language::Orv => 147,
            Language::Ota => 148,
            Language::Pay => 149,
            Language::Pcm => 150,
            Language::Pro => 151,
            Language::Pst => 152,
            Language::Qaf => 153,
            Language::Qpm => 154,
            Language::Qtd => 155,
            Language::Qti => 156,
            Language::Quc => 157,
            Language::Ruc => 158,
            Language::Sab => 159,
            Language::Sah => 160,
            Language::Say => 161,
            Language::Scn => 162,
            Language::Sga => 163,
            Language::Sjo => 164,
            Language::Sms => 165,
            Language::Ssp => 166,
            Language::Tpn => 167,
            Language::Urb => 168,
            Language::Vep => 169,
            Language::Wbp => 170,
            Language::Wuu => 171,
            Language::Xav => 172,
            Language::Xcl => 173,
            Language::Xnr => 174,
            Language::Xpg => 175,
            Language::Xum => 176,
            Language::Yrk => 177,
            Language::Yrl => 178,
            Language::Yue => 179,
            Language::Zza => 180,
        }
    }

    /// The language at place `n` of the order.
    pub fn by_rank(n: u16) -> (l: Language)
        requires
            n < LANGUAGE_COUNT,
        ensures
            l == Language::at_position(n as nat),
            l.position() == n,
    {
        if n == 0 { Language::Zho }
        else if n == 1 { Language::Epo }
        else if n == 2 { Language::Eng }
        else if n == 3 { Language::Rus }
        else if n == 4 { Language::Cmn }
        else if n == 5 { Language::Spa }
        else if n == 6 { Language::Por }
        else if n == 7 { Language::Ita }
        else if n == 8 { Language::Ben }
        else if n == 9 { Language::Fra }
        else if n == 10 { Language::Deu }
        else if n == 11 { Language::Ukr }
        else if n == 12 { Language::Kat }
        else if n == 13 { Language::Ara }
        else if n == 14 { Language::Hin }
        else if n == 15 { Language::Jpn }
        else if n == 16 { Language::Heb }
        else if n == 17 { Language::Yid }
        else if n == 18 { Language::Pol }
        else if n == 19 { Language::Amh }
        else if n == 20 { Language::Jav }
        else if n == 21 { Language::Kor }
        else if n == 22 { Language::Nob }
        else if n == 23 { Language::Dan }
        else if n == 24 { Language::Swe }
        else if n == 25 { Language::Fin }
        else if n == 26 { Language::Tur }
        else if n == 27 { Language::Nld }
        else if n == 28 { Language::Hun }
        else if n == 29 { Language::Ces }
        else if n == 30 { Language::Ell }
        else if n == 31 { Language::Bul }
        else if n == 32 { Language::Bel }
        else if n == 33 { Language::Mar }
        else if n == 34 { Language::Kan }
        else if n == 35 { Language::Ron }
        else if n == 36 { Language::Slv }
        else if n == 37 { Language::Hrv }
        else if n == 38 { Language::Srp }
        else if n == 39 { Language::Mkd }
        else if n == 40 { Language::Lit }
        else if n == 41 { Language::Lav }
        else if n == 42 { Language::Est }
        else if n == 43 { Language::Tam }
        else if n == 44 { Language::Vie }
        else if n == 45 { Language::Urd }
        else if n == 46 { Language::Tha }
        else if n == 47 { Language::Guj }
        else if n == 48 { Language::Uzb }
        else if n == 49 { Language::Pan }
        else if n == 50 { Language::Aze }
        else if n == 51 { Language::Ind }
        else if n == 52 { Language::Tel }
        else if n == 53 { Language::Pes }
        else if n == 54 { Language::Mal }
        else if n == 55 { Language::Ori }
        else if n == 56 { Language::Mya }
        else if n == 57 { Language::Nep }
        else if n == 58 { Language::Sin }
        else if n == 59 { Language::Khm }
        else if n == 60 { Language::Tuk }
        else if n == 61 { Language::Aka }
        else if n == 62 { Language::Zul }
        else if n == 63 { Language::Sna }
        else if n == 64 { Language::Afr }
        else if n == 65 { Language::Lat }
        else if n == 66 { Language::Slk }
        else if n == 67 { Language::Cat }
        else if n == 68 { Language::Tgl }
        else if n == 69 { Language::Hye }
        else if n == 70 { Language::Cym }
        else if n == 71 { Language::Kaz }
        else if n == 72 { Language::Abk }
        else if n == 73 { Language::Bam }
        else if n == 74 { Language::Bre }
        else if n == 75 { Language::Chu }
        else if n == 76 { Language::Eus }
        else if n == 77 { Language::Fao }
        else if n == 78 { Language::Gla }
        else if n == 79 { Language::Gle }
        else if n == 80 { Language::Glg }
        else if n == 81 { Language::Glv }
        else if n == 82 { Language::Hat }
        else if n == 83 { Language::Hau }
        else if n == 84 { Language::Isl }
        else if n == 85 { Language::Kir }
        else if n == 86 { Language::Nor }
        else if n == 87 { Language::Oci }
        else if n == 88 { Language::San }
        else if n == 89 { Language::Sme }
        else if n == 90 { Language::Snd }
        else if n == 91 { Language::Sqi }
        else if n == 92 { Language::Tat }
        else if n == 93 { Language::Uig }
        else if n == 94 { Language::Wol }
        else if n == 95 { Language::Yor }
        else if n == 96 { Language::Abq }
        else if n == 97 { Language::Aii }
        else if n == 98 { Language::Ajp }
        else if n == 99 { Language::Akk }
        else if n == 100 { Language::Aln }
        else if n == 101 { Language::Apu }
        else if n == 102 { Language::Aqz }
        else if n == 103 { Language::Arb }
        else if n == 104 { Language::Arh }
        else if n == 105 { Language::Arr }
        else if n == 106 { Language::Axm }
        else if n == 107 { Language::Azz }
        else if n == 108 { Language::Bho }
        else if n == 109 { Language::Bor }
        else if n == 110 { Language::Brh }
        else if n == 111 { Language::Bxr }
        else if n == 112 { Language::Ceb }
        else if n == 113 { Language::Cop }
        else if n == 114 { Language::Cpg }
        else if n == 115 { Language::Ctn }
        else if n == 116 { Language::Egy }
        else if n == 117 { Language::Eme }
        else if n == 118 { Language::Ess }
        else if n == 119 { Language::Frm }
        else if n == 120 { Language::Fro }
        else if n == 121 { Language::Got }
        else if n == 122 { Language::Grc }
        else if n == 123 { Language::Gub }
        else if n == 124 { Language::Gun }
        else if n == 125 { Language::Gwi }
        else if n == 126 { Language::Gya }
        else if n == 127 { Language::Hbo }
        else if n == 128 { Language::Hit }
        else if n == 129 { Language::Hsb }
        else if n == 130 { Language::Hyw }
        else if n == 131 { Language::Kbc }
        else if n == 132 { Language::Kmr }
        else if n == 133 { Language::Koi }
        else if n == 134 { Language::Kpv }
        else if n == 135 { Language::Krl }
        else if n == 136 { Language::Lij }
        else if n == 137 { Language::Lzh }
        else if n == 138 { Language::Mdf }
        else if n == 139 { Language::Myu }
        else if n == 140 { Language::Myv }
        else if n == 141 { Language::Naq }
        else if n == 142 { Language::Nds }
        else if n == 143 { Language::Nhi }
        else if n == 144 { Language::Nmf }
        else if n == 145 { Language::Oge }
        else if n == 146 { Language::Olo }
        else if n == 147 { Language::Orv }
        else if n == 148 { Language::Ota }
        else if n == 149 { Language::Pay }
        else if n == 150 { Language::Pcm }
        else if n == 151 { Language::Pro }
        else if n == 152 { Language::Pst }
        else if n == 153 { Language::Qaf }
        else if n == 154 { Language::Qpm }
        else if n == 155 { Language::Qtd }
        else if n == 156 { Language::Qti }
        else if n == 157 { Language::Quc }
        else if n == 158 { Language::Ruc }
        else if n == 159 { Language::Sab }
        else if n == 160 { Language::Sah }
        else if n == 161 { Language::Say }
        else if n == 162 { Language::Scn }
        else if n == 163 { Language::Sga }
        else if n == 164 { Language::Sjo }
        else if n == 165 { Language::Sms }
        else if n == 166 { Language::Ssp }
        else if n == 167 { Language::Tpn }
        else if n == 168 { Language::Urb }
        else if n == 169 { Language::Vep }
        else if n == 170 { Language::Wbp }
        else if n == 171 { Language::Wuu }
        else if n == 172 { Language::Xav }
        else if n == 173 { Language::Xcl }
        else if n == 174 { Language::Xnr }
        else if n == 175 { Language::Xpg }
        else if n == 176 { Language::Xum }
        else if n == 177 { Language::Yrk }
        else if n == 178 { Language::Yrl }
        else if n == 179 { Language::Yue }
        else { Language::Zza }
    }

    /// The ISO 639-3 code of the language.
    pub fn code(&self) -> (c: &'static str)
        ensures
            c@ == self.iso_code(),
    {
        match self {
            Language::Zho => {
                proof { reveal_strlit("zho"); }
                "zho"
            },
            Language::Epo => {
                proof { reveal_strlit("epo"); }
                "epo"
            },
            Language::Eng => {
                proof { reveal_strlit("eng"); }
                "eng"
            },
            Language::Rus => {
                proof { reveal_strlit("rus"); }
                "rus"
            },
            Language::Cmn => {
                proof { reveal_strlit("cmn"); }
                "cmn"
            },
            Language::Spa => {
                proof { reveal_strlit("spa"); }
                "spa"
            },
            Language::Por => {
                proof { reveal_strlit("por"); }
                "por"
            },
            Language::Ita => {
                proof { reveal_strlit("ita"); }
                "ita"
            },
            Language::Ben => {
                proof { reveal_strlit("ben"); }
                "ben"
            },
            Language::Fra => {
                proof { reveal_strlit("fra"); }
                "fra"
            },
            Language::Deu => {
                proof { reveal_strlit("deu"); }
                "deu"
            },
            Language::Ukr => {
                proof { reveal_strlit("ukr"); }
                "ukr"
            },
            Language::Kat => {
                proof { reveal_strlit("kat"); }
                "kat"
            },
            Language::Ara => {
                proof { reveal_strlit("ara"); }
                "ara"
            },
            Language::Hin => {
                proof { reveal_strlit("hin"); }
                "hin"
            },
            Language::Jpn => {
                proof { reveal_strlit("jpn"); }
                "jpn"
            },
            Language::Heb => {
                proof { reveal_strlit("heb"); }
                "heb"
            },
            Language::Yid => {
                proof { reveal_strlit("yid"); }
                "yid"
            },
            Language::Pol => {
                proof { reveal_strlit("pol"); }
                "pol"
            },
            Language::Amh => {
                proof { reveal_strlit("amh"); }
                "amh"
            },
            Language::Jav => {
                proof { reveal_strlit("jav"); }
                "jav"
            },
            Language::Kor => {
                proof { reveal_strlit("kor"); }
                "kor"
            },
            Language::Nob => {
                proof { reveal_strlit("nob"); }
                "nob"
            },
            Language::Dan => {
                proof { reveal_strlit("dan"); }
                "dan"
            },
            Language::Swe => {
                proof { reveal_strlit("swe"); }
                "swe"
            },
            Language::Fin => {
                proof { reveal_strlit("fin"); }
                "fin"
            },
            Language::Tur => {
                proof { reveal_strlit("tur"); }
                "tur"
            },
            Language::Nld => {
                proof { reveal_strlit("nld"); }
                "nld"
            },
            Language::Hun => {
                proof { reveal_strlit("hun"); }
                "hun"
            },
            Language::Ces => {
                proof { reveal_strlit("ces"); }
                "ces"
            },
            Language::Ell => {
                proof { reveal_strlit("ell"); }
                "ell"
            },
            Language::Bul => {
                proof { reveal_strlit("bul"); }
                "bul"
            },
            Language::Bel => {
                proof { reveal_strlit("bel"); }
                "bel"
            },
            Language::Mar => {
                proof { reveal_strlit("mar"); }
                "mar"
            },
            Language::Kan => {
                proof { reveal_strlit("kan"); }
                "kan"
            },
            Language::Ron => {
                proof { reveal_strlit("ron"); }
                "ron"
            },
            Language::Slv => {
                proof { reveal_strlit("slv"); }
                "slv"
            },
            Language::Hrv => {
                proof { reveal_strlit("hrv"); }
                "hrv"
            },
            Language::Srp => {
                proof { reveal_strlit("srp"); }
                "srp"
            },
            Language::Mkd => {
                proof { reveal_strlit("mkd"); }
                "mkd"
            },
            Language::Lit => {
                proof { reveal_strlit("lit"); }
                "lit"
            },
            Language::Lav => {
                proof { reveal_strlit("lav"); }
                "lav"
            },
            Language::Est => {
                proof { reveal_strlit("est"); }
                "est"
            },
            Language::Tam => {
                proof { reveal_strlit("tam"); }
                "tam"
            },
            Language::Vie => {
                proof { reveal_strlit("vie"); }
                "vie"
            },
            Language::Urd => {
                proof { reveal_strlit("urd"); }
                "urd"
            },
            Language::Tha => {
                proof { reveal_strlit("tha"); }
                "tha"
            },
            Language::Guj => {
                proof { reveal_strlit("guj"); }
                "guj"
            },
            Language::Uzb => {
                proof { reveal_strlit("uzb"); }
                "uzb"
            },
            Language::Pan => {
                proof { reveal_strlit("pan"); }
                "pan"
            },
            Language::Aze => {
                proof { reveal_strlit("aze"); }
                "aze"
            },
            Language::Ind => {
                proof { reveal_strlit("ind"); }
                "ind"
            },
            Language::Tel => {
                proof { reveal_strlit("tel"); }
                "tel"
            },
            Language::Pes => {
                proof { reveal_strlit("pes"); }
                "pes"
            },
            Language::Mal => {
                proof { reveal_strlit("mal"); }
                "mal"
            },
            Language::Ori => {
                proof { reveal_strlit("ori"); }
                "ori"
            },
            Language::Mya => {
                proof { reveal_strlit("mya"); }
                "mya"
            },
            Language::Nep => {
                proof { reveal_strlit("nep"); }
                "nep"
            },
            Language::Sin => {
                proof { reveal_strlit("sin"); }
                "sin"
            },
            Language::Khm => {
                proof { reveal_strlit("khm"); }
                "khm"
            },
            Language::Tuk => {
                proof { reveal_strlit("tuk"); }
                "tuk"
            },
            Language::Aka => {
                proof { reveal_strlit("aka"); }
                "aka"
            },
            Language::Zul => {
                proof { reveal_strlit("zul"); }
                "zul"
            },
            Language::Sna => {
                proof { reveal_strlit("sna"); }
                "sna"
            },
            Language::Afr => {
                proof { reveal_strlit("afr"); }
                "afr"
            },
            Language::Lat => {
                proof { reveal_strlit("lat"); }
                "lat"
            },
            Language::Slk => {
                proof { reveal_strlit("slk"); }
                "slk"
            },
            Language::Cat => {
                proof { reveal_strlit("cat"); }
                "cat"
            },
            Language::Tgl => {
                proof { reveal_strlit("tgl"); }
                "tgl"
            },
            Language::Hye => {
                proof { reveal_strlit("hye"); }
                "hye"
            },
            Language::Cym => {
                proof { reveal_strlit("cym"); }
                "cym"
            },
            Language::Kaz => {
                proof { reveal_strlit("kaz"); }
                "kaz"
            },
            Language::Abk => {
                proof { reveal_strlit("abk"); }
                "abk"
            },
            Language::Bam => {
                proof { reveal_strlit("bam"); }
                "bam"
            },
            Language::Bre => {
                proof { reveal_strlit("bre"); }
                "bre"
            },
            Language::Chu => {
                proof { reveal_strlit("chu"); }
                "chu"
            },
            Language::Eus => {
                proof { reveal_strlit("eus"); }
                "eus"
            },
            Language::Fao => {
                proof { reveal_strlit("fao"); }
                "fao"
            },
            Language::Gla => {
                proof { reveal_strlit("gla"); }
                "gla"
            },
            Language::Gle => {
                proof { reveal_strlit("gle"); }
                "gle"
            },
            Language::Glg => {
                proof { reveal_strlit("glg"); }
                "glg"
            },
            Language::Glv => {
                proof { reveal_strlit("glv"); }
                "glv"
            },
            Language::Hat => {
                proof { reveal_strlit("hat"); }
                "hat"
            },
            Language::Hau => {
                proof { reveal_strlit("hau"); }
                "hau"
            },
            Language::Isl => {
                proof { reveal_strlit("isl"); }
                "isl"
            },
            Language::Kir => {
                proof { reveal_strlit("kir"); }
                "kir"
            },
            Language::Nor => {
                proof { reveal_strlit("nor"); }
                "nor"
            },
            Language::Oci => {
                proof { reveal_strlit("oci"); }
                "oci"
            },
            Language::San => {
                proof { reveal_strlit("san"); }
                "san"
            },
            Language::Sme => {
                proof { reveal_strlit("sme"); }
                "sme"
            },
            Language::Snd => {
                proof { reveal_strlit("snd"); }
                "snd"
            },
            Language::Sqi => {
                proof { reveal_strlit("sqi"); }
                "sqi"
            },
            Language::Tat => {
                proof { reveal_strlit("tat"); }
                "tat"
            },
            Language::Uig => {
                proof { reveal_strlit("uig"); }
                "uig"
            },
            Language::Wol => {
                proof { reveal_strlit("wol"); }
                "wol"
            },
            Language::Yor => {
                proof { reveal_strlit("yor"); }
                "yor"
            },
            Language::Abq => {
                proof { reveal_strlit("abq"); }
                "abq"
            },
            Language::Aii => {
                proof { reveal_strlit("aii"); }
                "aii"
            },
            Language::Ajp => {
                proof { reveal_strlit("ajp"); }
                "ajp"
            },
            Language::Akk => {
                proof { reveal_strlit("akk"); }
                "akk"
            },
            Language::Aln => {
                proof { reveal_strlit("aln"); }
                "aln"
            },
            Language::Apu => {
                proof { reveal_strlit("apu"); }
                "apu"
            },
            Language::Aqz => {
                proof { reveal_strlit("aqz"); }
                "aqz"
            },
            Language::Arb => {
                proof { reveal_strlit("arb"); }
                "arb"
            },
            Language::Arh => {
                proof { reveal_strlit("arh"); }
                "arh"
            },
            Language::Arr => {
                proof { reveal_strlit("arr"); }
                "arr"
            },
            Language::Axm => {
                proof { reveal_strlit("axm"); }
                "axm"
            },
            Language::Azz => {
                proof { reveal_strlit("azz"); }
                "azz"
            },
            Language::Bho => {
                proof { reveal_strlit("bho"); }
                "bho"
            },
            Language::Bor => {
                proof { reveal_strlit("bor"); }
                "bor"
            },
            Language::Brh => {
                proof { reveal_strlit("brh"); }
                "brh"
            },
            Language::Bxr => {
                proof { reveal_strlit("bxr"); }
                "bxr"
            },
            Language::Ceb => {
                proof { reveal_strlit("ceb"); }
                "ceb"
            },
            Language::Cop => {
                proof { reveal_strlit("cop"); }
                "cop"
            },
            Language::Cpg => {
                proof { reveal_strlit("cpg"); }
                "cpg"
            },
            Language::Ctn => {
                proof { reveal_strlit("ctn"); }
                "ctn"
            },
            Language::Egy => {
                proof { reveal_strlit("egy"); }
                "egy"
            },
            Language::Eme => {
                proof { reveal_strlit("eme"); }
                "eme"
            },
            Language::Ess => {
                proof { reveal_strlit("ess"); }
                "ess"
            },
            Language::Frm => {
                proof { reveal_strlit("frm"); }
                "frm"
            },
            Language::Fro => {
                proof { reveal_strlit("fro"); }
                "fro"
            },
            Language::Got => {
                proof { reveal_strlit("got"); }
                "got"
            },
            Language::Grc => {
                proof { reveal_strlit("grc"); }
                "grc"
            },
            Language::Gub => {
                proof { reveal_strlit("gub"); }
                "gub"
            },
            Language::Gun => {
                proof { reveal_strlit("gun"); }
                "gun"
            },
            Language::Gwi => {
                proof { reveal_strlit("gwi"); }
                "gwi"
            },
            Language::Gya => {
                proof { reveal_strlit("gya"); }
                "gya"
            },
            Language::Hbo => {
                proof { reveal_strlit("hbo"); }
                "hbo"
            },
            Language::Hit => {
                proof { reveal_strlit("hit"); }
                "hit"
            },
            Language::Hsb => {
                proof { reveal_strlit("hsb"); }
                "hsb"
            },
            Language::Hyw => {
                proof { reveal_strlit("hyw"); }
                "hyw"
            },
            Language::Kbc => {
                proof { reveal_strlit("kbc"); }
                "kbc"
            },
            Language::Kmr => {
                proof { reveal_strlit("kmr"); }
                "kmr"
            },
            Language::Koi => {
                proof { reveal_strlit("koi"); }
                "koi"
            },
            Language::Kpv => {
                proof { reveal_strlit("kpv"); }
                "kpv"
            },
            Language::Krl => {
                proof { reveal_strlit("krl"); }
                "krl"
            },
            Language::Lij => {
                proof { reveal_strlit("lij"); }
                "lij"
            },
            Language::Lzh => {
                proof { reveal_strlit("lzh"); }
                "lzh"
            },
            Language::Mdf => {
                proof { reveal_strlit("mdf"); }
                "mdf"
            },
            Language::Myu => {
                proof { reveal_strlit("myu"); }
                "myu"
            },
            Language::Myv => {
                proof { reveal_strlit("myv"); }
                "myv"
            },
            Language::Naq => {
                proof { reveal_strlit("naq"); }
                "naq"
            },
            Language::Nds => {
                proof { reveal_strlit("nds"); }
                "nds"
            },
            Language::Nhi => {
                proof { reveal_strlit("nhi"); }
                "nhi"
            },
            Language::Nmf => {
                proof { reveal_strlit("nmf"); }
                "nmf"
            },
            Language::Oge => {
                proof { reveal_strlit("oge"); }
                "oge"
            },
            Language::Olo => {
                proof { reveal_strlit("olo"); }
                "olo"
            },
            Language::Orv => {
                proof { reveal_strlit("orv"); }
                "orv"
            },
            Language::Ota => {
                proof { reveal_strlit("ota"); }
                "ota"
            },
            Language::Pay => {
                proof { reveal_strlit("pay"); }
                "pay"
            },
            Language::Pcm => {
                proof { reveal_strlit("pcm"); }
                "pcm"
            },
            Language::Pro => {
                proof { reveal_strlit("pro"); }
                "pro"
            },
            Language::Pst => {
                proof { reveal_strlit("pst"); }
                "pst"
            },
            Language::Qaf => {
                proof { reveal_strlit("qaf"); }
                "qaf"
            },
            Language::Qpm => {
                proof { reveal_strlit("qpm"); }
                "qpm"
            },
            Language::Qtd => {
                proof { reveal_strlit("qtd"); }
                "qtd"
            },
            Language::Qti => {
                proof { reveal_strlit("qti"); }
                "qti"
            },
            Language::Quc => {
                proof { reveal_strlit("quc"); }
                "quc"
            },
            Language::Ruc => {
                proof { reveal_strlit("ruc"); }
                "ruc"
            },
            Language::Sab => {
                proof { reveal_strlit("sab"); }
                "sab"
            },
            Language::Sah => {
                proof { reveal_strlit("sah"); }
                "sah"
            },
            Language::Say => {
                proof { reveal_strlit("say"); }
                "say"
            },
            Language::Scn => {
                proof { reveal_strlit("scn"); }
                "scn"
            },
            Language::Sga => {
                proof { reveal_strlit("sga"); }
                "sga"
            },
            Language::Sjo => {
                proof { reveal_strlit("sjo"); }
                "sjo"
            },
            Language::Sms => {
                proof { reveal_strlit("sms"); }
                "sms"
            },
            Language::Ssp => {
                proof { reveal_strlit("ssp"); }
                "ssp"
            },
            Language::Tpn => {
                proof { reveal_strlit("tpn"); }
                "tpn"
            },
            Language::Urb => {
                proof { reveal_strlit("urb"); }
                "urb"
            },
            Language::Vep => {
                proof { reveal_strlit("vep"); }
                "vep"
            },
            Language::Wbp => {
                proof { reveal_strlit("wbp"); }
                "wbp"
            },
            Language::Wuu => {
                proof { reveal_strlit("wuu"); }
                "wuu"
            },
            Language::Xav => {
                proof { reveal_strlit("xav"); }
                "xav"
            },
            Language::Xcl => {
                proof { reveal_strlit("xcl"); }
                "xcl"
            },
            Language::Xnr => {
                proof { reveal_strlit("xnr"); }
                "xnr"
            },
            Language::Xpg => {
                proof { reveal_strlit("xpg"); }
                "xpg"
            },
            Language::Xum => {
                proof { reveal_strlit("xum"); }
                "xum"
            },
            Language::Yrk => {
                proof { reveal_strlit("yrk"); }
                "yrk"
            },
            Language::Yrl => {
                proof { reveal_strlit("yrl"); }
                "yrl"
            },
            Language::Yue => {
                proof { reveal_strlit("yue"); }
                "yue"
            },
            Language::Zza => {
                proof { reveal_strlit("zza"); }
                "zza"
            },
        }
    }

    /// The language that the tokenizer names `code`, if it knows one: the code
    /// goes to `charabia::Language::from_code`, and the language found there is
    /// told by its canonical code.
    pub fn from_code(code: &str) -> (r: Option<Language>)
        ensures
            r == language_of_code(code@),
    {
        match charabia_canonical_code(code) {
            Some(canonical) => Language::from_iso_code(canonical),
            None => None,
        }
    }

    /// The first language, in the order of languages, whose ISO 639-3 code is
    /// `code`, if any.
    pub fn from_iso_code(code: &str) -> (r: Option<Language>)
        ensures
            r == language_with_code(code@),
            match r {
                Some(l) => l.iso_code() == code@,
                None => forall|l: Language| #[trigger] l.iso_code() != code@,
            },
    {
        let mut n: u16 = 0;
        while n < LANGUAGE_COUNT
            invariant
                n <= LANGUAGE_COUNT,
                forall|l: Language| l.position() < n ==> #[trigger] l.iso_code() != code@,
                language_with_code(code@) == first_with_code(code@, n as nat),
            decreases LANGUAGE_COUNT - n,
        {
            let l = Language::by_rank(n);
            if same_text(l.code(), code) {
                return Some(l);
            }
            proof {
                assert forall|m: Language| m.position() < n + 1 implies #[trigger] m.iso_code() != code@ by {
                    if m.position() == n {
                        m.lemma_position_injective(l);
                    }
                }
            }
            n = n + 1;
        }
        proof {
            assert forall|m: Language| #[trigger] m.iso_code() != code@ by {
                m.lemma_position();
            }
        }
        None
    }
}

/// The first language at or after place `n` whose ISO 639-3 code is `code`.
pub open spec fn first_with_code(code: Seq<char>, n: nat) -> Option<Language>
    decreases LANGUAGE_COUNT - n,
{
    if n >= LANGUAGE_COUNT {
        None
    } else if Language::at_position(n).iso_code() == code {
        Some(Language::at_position(n))
    } else {
        first_with_code(code, n + 1)
    }
}

/// The first language, in the order of languages, whose ISO 639-3 code is `code`.
pub open spec fn language_with_code(code: Seq<char>) -> Option<Language> {
    first_with_code(code, 0)
}

/// The canonical code of the language that `charabia` finds for `code`.
pub uninterp spec fn charabia_canonical(code: Seq<char>) -> Option<Seq<char>>;

/// The language that the tokenizer names `code`.
pub open spec fn language_of_code(code: Seq<char>) -> Option<Language> {
    match charabia_canonical(code) {
        Some(c) => language_with_code(c),
        None => None,
    }
}

/// Calls `charabia::Language::from_code` on `code` and, for the language it
/// finds, `charabia::Language::code`. What comes back is a function of `code`
/// alone (the table of `charabia` and `whatlang`), named `charabia_canonical`;
/// which codes it accepts is not stated here.
#[verifier::external_body]
fn charabia_canonical_code(code: &str) -> (r: Option<&'static str>)
    ensures
        match r {
            Some(c) => charabia_canonical(code@) == Some(c@),
            None => charabia_canonical(code@) is None,
        },
{
    match charabia::Language::from_code(code) {
        Some(language) => Some(language.code()),
        None => None,
    }
}

} // verus!
