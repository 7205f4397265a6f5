//! Locales: the languages that a rule assigns to attributes, named by their
//! ISO 639-1 code where they have one, or by their ISO 639-3 code.
//!
//! A rule lets attributes whose names match its patterns be tokenized with the
//! rules of its languages.

use vstd::prelude::*;
use crate::language::Language;
use crate::mismatch::joined;
use crate::order::{listed_in_order, sort_codes};
use crate::text::{chars_of, compare_text, push_text, string_from_chars, Comparison};

verus! {

/// How many locales there are.
pub const LOCALE_COUNT: u16 = 276;

/// How many locales have a two-letter ISO 639-1 code. They are declared
/// first, and then, in the same order, the three-letter locales they pair with.
pub const TWO_LETTER_LOCALES: u16 = 95;

/// A locale, by the variant of its code: two letters for ISO 639-1, three for
/// ISO 639-3.
#[derive(PartialEq, Eq, Structural, Clone, Copy, Debug, Hash, PartialOrd, Ord)]
pub enum Locale {
    Af,
    Ak,
    Am,
    Ar,
    Az,
    Be,
    Bn,
    Bg,
    Ca,
    Cs,
    Cy,
    Da,
    De,
    El,
    En,
    Eo,
    Et,
    Fi,
    Fr,
    Gu,
    He,
    Hi,
    Hr,
    Hu,
    Hy,
    Id,
    It,
    Jv,
    Ja,
    Kn,
    Ka,
    Kk,
    Km,
    Ko,
    La,
    Lv,
    Lt,
    Ml,
    Mr,
    Mk,
    My,
    Ne,
    Nl,
    Nb,
    Or,
    Pa,
    Fa,
    Pl,
    Pt,
    Ro,
    Ru,
    Si,
    Sk,
    Sl,
    Sn,
    Es,
    Sr,
    Sv,
    Ta,
    Te,
    Tl,
    Th,
    Tk,
    Tr,
    Uk,
    Ur,
    Uz,
    Vi,
    Yi,
    Zh,
    Zu,
    Ab,
    Bm,
    Br,
    Cu,
    Eu,
    Fo,
    Gd,
    Ga,
    Gl,
    Gv,
    Ht,
    Ha,
    Is,
    Ky,
    No,
    Oc,
    Sa,
    Se,
    Sd,
    Sq,
    Tt,
    Ug,
    Wo,
    Yo,
    Afr,
    Aka,
    Amh,
    Ara,
    Aze,
    Bel,
    Ben,
    Bul,
    Cat,
    Ces,
    Cym,
    Dan,
    Deu,
    Ell,
    Eng,
    Epo,
    Est,
    Fin,
    Fra,
    Guj,
    Heb,
    Hin,
    Hrv,
    Hun,
    Hye,
    Ind,
    Ita,
    Jav,
    Jpn,
    Kan,
    Kat,
    Kaz,
    Khm,
    Kor,
    Lat,
    Lav,
    Lit,
    Mal,
    Mar,
    Mkd,
    Mya,
    Nep,
    Nld,
    Nob,
    Ori,
    Pan,
    Pes,
    Pol,
    Por,
    Ron,
    Rus,
    Sin,
    Slk,
    Slv,
    Sna,
    Spa,
    Srp,
    Swe,
    Tam,
    Tel,
    Tgl,
    Tha,
    Tuk,
    Tur,
    Ukr,
    Urd,
    Uzb,
    Vie,
    Yid,
    Zho,
    Zul,
    Abk,
    Bam,
    Bre,
    Chu,
    Eus,
    Fao,
    Gla,
    Gle,
    Glg,
    Glv,
    Hat,
    Hau,
    Isl,
    Kir,
    Nor,
    Oci,
    San,
    Sme,
    Snd,
    Sqi,
    Tat,
    Uig,
    Wol,
    Yor,
    Abq,
    Aii,
    Ajp,
    Akk,
    Aln,
    Apu,
    Aqz,
    Arb,
    Arh,
    Arr,
    Axm,
    Azz,
    Bho,
    Bor,
    Brh,
    Bxr,
    Ceb,
    Cop,
    Cpg,
    Ctn,
    Egy,
    Eme,
    Ess,
    Frm,
    Fro,
    Got,
    Grc,
    Gub,
    Gun,
    Gwi,
    Gya,
    Hbo,
    Hit,
    Hsb,
    Hyw,
    Kbc,
    Kmr,
    Koi,
    Kpv,
    Krl,
    Lij,
    Lzh,
    Mdf,
    Myu,
    Myv,
    Naq,
    Nds,
    Nhi,
    Nmf,
    Oge,
    Olo,
    Orv,
    Ota,
    Pay,
    Pcm,
    Pro,
    Pst,
    Qaf,
    Qpm,
    Qtd,
    Qti,
    Quc,
    Ruc,
    Sab,
    Sah,
    Say,
    Scn,
    Sga,
    Sjo,
    Sms,
    Ssp,
    Tpn,
    Urb,
    Vep,
    Wbp,
    Wuu,
    Xav,
    Xcl,
    Xnr,
    Xpg,
    Xum,
    Yrk,
    Yrl,
    Yue,
    Zza,
    Cmn,
}

impl Locale {
    /// The place of the locale in the table.
    pub open spec fn position(self) -> nat {
        match self {
            Locale::Af => 0,
            Locale::Ak => 1,
            Locale::Am => 2,
            Locale::Ar => 3,
            Locale::Az => 4,
            Locale::Be => 5,
            Locale::Bn => 6,
            Locale::Bg => 7,
            Locale::Ca => 8,
            Locale::Cs => 9,
            Locale::Cy => 10,
            Locale::Da => 11,
            Locale::De => 12,
            Locale::El => 13,
            Locale::En => 14,
            Locale::Eo => 15,
            Locale::Et => 16,
            Locale::Fi => 17,
            Locale::Fr => 18,
            Locale::Gu => 19,
            Locale::He => 20,
            Locale::Hi => 21,
            Locale::Hr => 22,
            Locale::Hu => 23,
            Locale::Hy => 24,
            Locale::Id => 25,
            Locale::It => 26,
            Locale::Jv => 27,
            Locale::Ja => 28,
            Locale::Kn => 29,
            Locale::Ka => 30,
            Locale::Kk => 31,
            Locale::Km => 32,
            Locale::Ko => 33,
            Locale::La => 34,
            Locale::Lv => 35,
            Locale::Lt => 36,
            Locale::Ml => 37,
            Locale::Mr => 38,
            Locale::Mk => 39,
            Locale::My => 40,
            Locale::Ne => 41,
            Locale::Nl => 42,
            Locale::Nb => 43,
            Locale::Or => 44,
            Locale::Pa => 45,
            Locale::Fa => 46,
            Locale::Pl => 47,
            Locale::Pt => 48,
            Locale::Ro => 49,
            Locale::Ru => 50,
            Locale::Si => 51,
            Locale::Sk => 52,
            Locale::Sl => 53,
            Locale::Sn => 54,
            Locale::Es => 55,
            Locale::Sr => 56,
            Locale::Sv => 57,
            Locale::Ta => 58,
            Locale::Te => 59,
            Locale::Tl => 60,
            Locale::Th => 61,
            Locale::Tk => 62,
            Locale::Tr => 63,
            Locale::Uk => 64,
            Locale::Ur => 65,
            Locale::Uz => 66,
            Locale::Vi => 67,
            Locale::Yi => 68,
            Locale::Zh => 69,
            Locale::Zu => 70,
            Locale::Ab => 71,
            Locale::Bm => 72,
            Locale::Br => 73,
            Locale::Cu => 74,
            Locale::Eu => 75,
            Locale::Fo => 76,
            Locale::Gd => 77,
            Locale::Ga => 78,
            Locale::Gl => 79,
            Locale::Gv => 80,
            Locale::Ht => 81,
            Locale::Ha => 82,
            Locale::Is => 83,
            Locale::Ky => 84,
            Locale::No => 85,
            Locale::Oc => 86,
            Locale::Sa => 87,
            Locale::Se => 88,
            Locale::Sd => 89,
            Locale::Sq => 90,
            Locale::Tt => 91,
            Locale::Ug => 92,
            Locale::Wo => 93,
            Locale::Yo => 94,
            Locale::Afr => 95,
            Locale::Aka => 96,
            Locale::Amh => 97,
            Locale::Ara => 98,
            Locale::Aze => 99,
            Locale::Bel => 100,
            Locale::Ben => 101,
            Locale::Bul => 102,
            Locale::Cat => 103,
            Locale::Ces => 104,
            Locale::Cym => 105,
            Locale::Dan => 106,
            Locale::Deu => 107,
            Locale::Ell => 108,
            Locale::Eng => 109,
            Locale::Epo => 110,
            Locale::Est => 111,
            Locale::Fin => 112,
            Locale::Fra => 113,
            Locale::Guj => 114,
            Locale::Heb => 115,
            Locale::Hin => 116,
            Locale::Hrv => 117,
            Locale::Hun => 118,
            Locale::Hye => 119,
            Locale::Ind => 120,
            Locale::Ita => 121,
            Locale::Jav => 122,
            Locale::Jpn => 123,
            Locale::Kan => 124,
            Locale::Kat => 125,
            Locale::Kaz => 126,
            Locale::Khm => 127,
            Locale::Kor => 128,
            Locale::Lat => 129,
            Locale::Lav => 130,
            Locale::Lit => 131,
            Locale::Mal => 132,
            Locale::Mar => 133,
            Locale::Mkd => 134,
            Locale::Mya => 135,
            Locale::Nep => 136,
            Locale::Nld => 137,
            Locale::Nob => 138,
            Locale::Ori => 139,
            Locale::Pan => 140,
            Locale::Pes => 141,
            Locale::Pol => 142,
            Locale::Por => 143,
            Locale::Ron => 144,
            Locale::Rus => 145,
            Locale::Sin => 146,
            Locale::Slk => 147,
            Locale::Slv => 148,
            Locale::Sna => 149,
            Locale::Spa => 150,
            Locale::Srp => 151,
            Locale::Swe => 152,
            Locale::Tam => 153,
            Locale::Tel => 154,
            Locale::Tgl => 155,
            Locale::Tha => 156,
            Locale::Tuk => 157,
            Locale::Tur => 158,
            Locale::Ukr => 159,
            Locale::Urd => 160,
            Locale::Uzb => 161,
            Locale::Vie => 162,
            Locale::Yid => 163,
            Locale::Zho => 164,
            Locale::Zul => 165,
            Locale::Abk => 166,
            Locale::Bam => 167,
            Locale::Bre => 168,
            Locale::Chu => 169,
            Locale::Eus => 170,
            Locale::Fao => 171,
            Locale::Gla => 172,
            Locale::Gle => 173,
            Locale::Glg => 174,
            Locale::Glv => 175,
            Locale::Hat => 176,
            Locale::Hau => 177,
            Locale::Isl => 178,
            Locale::Kir => 179,
            Locale::Nor => 180,
            Locale::Oci => 181,
            Locale::San => 182,
            Locale::Sme => 183,
            Locale::Snd => 184,
            Locale::Sqi => 185,
            Locale::Tat => 186,
            Locale::Uig => 187,
            Locale::Wol => 188,
            Locale::Yor => 189,
            Locale::Abq => 190,
            Locale::Aii => 191,
            Locale::Ajp => 192,
            Locale::Akk => 193,
            Locale::Aln => 194,
            Locale::Apu => 195,
            Locale::Aqz => 196,
            Locale::Arb => 197,
            Locale::Arh => 198,
            Locale::Arr => 199,
            Locale::Axm => 200,
            Locale::Azz => 201,
            Locale::Bho => 202,
            Locale::Bor => 203,
            Locale::Brh => 204,
            Locale::Bxr => 205,
            Locale::Ceb => 206,
            Locale::Cop => 207,
            Locale::Cpg => 208,
            Locale::Ctn => 209,
            Locale::Egy => 210,
            Locale::Eme => 211,
            Locale::Ess => 212,
            Locale::Frm => 213,
            Locale::Fro => 214,
            Locale::Got => 215,
            Locale::Grc => 216,
            Locale::Gub => 217,
            Locale::Gun => 218,
            Locale::Gwi => 219,
            Locale::Gya => 220,
            Locale::Hbo => 221,
            Locale::Hit => 222,
            Locale::Hsb => 223,
            Locale::Hyw => 224,
            Locale::Kbc => 225,
            Locale::Kmr => 226,
            Locale::Koi => 227,
            Locale::Kpv => 228,
            Locale::Krl => 229,
            Locale::Lij => 230,
            Locale::Lzh => 231,
            Locale::Mdf => 232,
            Locale::Myu => 233,
            Locale::Myv => 234,
            Locale::Naq => 235,
            Locale::Nds => 236,
            Locale::Nhi => 237,
            Locale::Nmf => 238,
            Locale::Oge => 239,
            Locale::Olo => 240,
            Locale::Orv => 241,
            Locale::Ota => 242,
            Locale::Pay => 243,
            Locale::Pcm => 244,
            Locale::Pro => 245,
            Locale::Pst => 246,
            Locale::Qaf => 247,
            Locale::Qpm => 248,
            Locale::Qtd => 249,
            Locale::Qti => 250,
            Locale::Quc => 251,
            Locale::Ruc => 252,
            Locale::Sab => 253,
            Locale::Sah => 254,
            Locale::Say => 255,
            Locale::Scn => 256,
            Locale::Sga => 257,
            Locale::Sjo => 258,
            Locale::Sms => 259,
            Locale::Ssp => 260,
            Locale::Tpn => 261,
            Locale::Urb => 262,
            Locale::Vep => 263,
            Locale::Wbp => 264,
            Locale::Wuu => 265,
            Locale::Xav => 266,
            Locale::Xcl => 267,
            Locale::Xnr => 268,
            Locale::Xpg => 269,
            Locale::Xum => 270,
            Locale::Yrk => 271,
            Locale::Yrl => 272,
            Locale::Yue => 273,
            Locale::Zza => 274,
            Locale::Cmn => 275,
        }
    }

    /// The locale at place `n` of the table.
    pub open spec fn at_position(n: nat) -> Locale {
        if n == 0 { Locale::Af }
        else if n == 1 { Locale::Ak }
        else if n == 2 { Locale::Am }
        else if n == 3 { Locale::Ar }
        else if n == 4 { Locale::Az }
        else if n == 5 { Locale::Be }
        else if n == 6 { Locale::Bn }
        else if n == 7 { Locale::Bg }
        else if n == 8 { Locale::Ca }
        else if n == 9 { Locale::Cs }
        else if n == 10 { Locale::Cy }
        else if n == 11 { Locale::Da }
        else if n == 12 { Locale::De }
        else if n == 13 { Locale::El }
        else if n == 14 { Locale::En }
        else if n == 15 { Locale::Eo }
        else if n == 16 { Locale::Et }
        else if n == 17 { Locale::Fi }
        else if n == 18 { Locale::Fr }
        else if n == 19 { Locale::Gu }
        else if n == 20 { Locale::He }
        else if n == 21 { Locale::Hi }
        else if n == 22 { Locale::Hr }
        else if n == 23 { Locale::Hu }
        else if n == 24 { Locale::Hy }
        else if n == 25 { Locale::Id }
        else if n == 26 { Locale::It }
        else if n == 27 { Locale::Jv }
        else if n == 28 { Locale::Ja }
        else if n == 29 { Locale::Kn }
        else if n == 30 { Locale::Ka }
        else if n == 31 { Locale::Kk }
        else if n == 32 { Locale::Km }
        else if n == 33 { Locale::Ko }
        else if n == 34 { Locale::La }
        else if n == 35 { Locale::Lv }
        else if n == 36 { Locale::Lt }
        else if n == 37 { Locale::Ml }
        else if n == 38 { Locale::Mr }
        else if n == 39 { Locale::Mk }
        else if n == 40 { Locale::My }
        else if n == 41 { Locale::Ne }
        else if n == 42 { Locale::Nl }
        else if n == 43 { Locale::Nb }
        else if n == 44 { Locale::Or }
        else if n == 45 { Locale::Pa }
        else if n == 46 { Locale::Fa }
        else if n == 47 { Locale::Pl }
        else if n == 48 { Locale::Pt }
        else if n == 49 { Locale::Ro }
        else if n == 50 { Locale::Ru }
        else if n == 51 { Locale::Si }
        else if n == 52 { Locale::Sk }
        else if n == 53 { Locale::Sl }
        else if n == 54 { Locale::Sn }
        else if n == 55 { Locale::Es }
        else if n == 56 { Locale::Sr }
        else if n == 57 { Locale::Sv }
        else if n == 58 { Locale::Ta }
        else if n == 59 { Locale::Te }
        else if n == 60 { Locale::Tl }
        else if n == 61 { Locale::Th }
        else if n == 62 { Locale::Tk }
        else if n == 63 { Locale::Tr }
        else if n == 64 { Locale::Uk }
        else if n == 65 { Locale::Ur }
        else if n == 66 { Locale::Uz }
        else if n == 67 { Locale::Vi }
        else if n == 68 { Locale::Yi }
        else if n == 69 { Locale::Zh }
        else if n == 70 { Locale::Zu }
        else if n == 71 { Locale::Ab }
        else if n == 72 { Locale::Bm }
        else if n == 73 { Locale::Br }
        else if n == 74 { Locale::Cu }
        else if n == 75 { Locale::Eu }
        else if n == 76 { Locale::Fo }
        else if n == 77 { Locale::Gd }
        else if n == 78 { Locale::Ga }
        else if n == 79 { Locale::Gl }
        else if n == 80 { Locale::Gv }
        else if n == 81 { Locale::Ht }
        else if n == 82 { Locale::Ha }
        else if n == 83 { Locale::Is }
        else if n == 84 { Locale::Ky }
        else if n == 85 { Locale::No }
        else if n == 86 { Locale::Oc }
        else if n == 87 { Locale::Sa }
        else if n == 88 { Locale::Se }
        else if n == 89 { Locale::Sd }
        else if n == 90 { Locale::Sq }
        else if n == 91 { Locale::Tt }
        else if n == 92 { Locale::Ug }
        else if n == 93 { Locale::Wo }
        else if n == 94 { Locale::Yo }
        else if n == 95 { Locale::Afr }
        else if n == 96 { Locale::Aka }
        else if n == 97 { Locale::Amh }
        else if n == 98 { Locale::Ara }
        else if n == 99 { Locale::Aze }
        else if n == 100 { Locale::Bel }
        else if n == 101 { Locale::Ben }
        else if n == 102 { Locale::Bul }
        else if n == 103 { Locale::Cat }
        else if n == 104 { Locale::Ces }
        else if n == 105 { Locale::Cym }
        else if n == 106 { Locale::Dan }
        else if n == 107 { Locale::Deu }
        else if n == 108 { Locale::Ell }
        else if n == 109 { Locale::Eng }
        else if n == 110 { Locale::Epo }
        else if n == 111 { Locale::Est }
        else if n == 112 { Locale::Fin }
        else if n == 113 { Locale::Fra }
        else if n == 114 { Locale::Guj }
        else if n == 115 { Locale::Heb }
        else if n == 116 { Locale::Hin }
        else if n == 117 { Locale::Hrv }
        else if n == 118 { Locale::Hun }
        else if n == 119 { Locale::Hye }
        else if n == 120 { Locale::Ind }
        else if n == 121 { Locale::Ita }
        else if n == 122 { Locale::Jav }
        else if n == 123 { Locale::Jpn }
        else if n == 124 { Locale::Kan }
        else if n == 125 { Locale::Kat }
        else if n == 126 { Locale::Kaz }
        else if n == 127 { Locale::Khm }
        else if n == 128 { Locale::Kor }
        else if n == 129 { Locale::Lat }
        else if n == 130 { Locale::Lav }
        else if n == 131 { Locale::Lit }
        else if n == 132 { Locale::Mal }
        else if n == 133 { Locale::Mar }
        else if n == 134 { Locale::Mkd }
        else if n == 135 { Locale::Mya }
        else if n == 136 { Locale::Nep }
        else if n == 137 { Locale::Nld }
        else if n == 138 { Locale::Nob }
        else if n == 139 { Locale::Ori }
        else if n == 140 { Locale::Pan }
        else if n == 141 { Locale::Pes }
        else if n == 142 { Locale::Pol }
        else if n == 143 { Locale::Por }
        else if n == 144 { Locale::Ron }
        else if n == 145 { Locale::Rus }
        else if n == 146 { Locale::Sin }
        else if n == 147 { Locale::Slk }
        else if n == 148 { Locale::Slv }
        else if n == 149 { Locale::Sna }
        else if n == 150 { Locale::Spa }
        else if n == 151 { Locale::Srp }
        else if n == 152 { Locale::Swe }
        else if n == 153 { Locale::Tam }
        else if n == 154 { Locale::Tel }
        else if n == 155 { Locale::Tgl }
        else if n == 156 { Locale::Tha }
        else if n == 157 { Locale::Tuk }
        else if n == 158 { Locale::Tur }
        else if n == 159 { Locale::Ukr }
        else if n == 160 { Locale::Urd }
        else if n == 161 { Locale::Uzb }
        else if n == 162 { Locale::Vie }
        else if n == 163 { Locale::Yid }
        else if n == 164 { Locale::Zho }
        else if n == 165 { Locale::Zul }
        else if n == 166 { Locale::Abk }
        else if n == 167 { Locale::Bam }
        else if n == 168 { Locale::Bre }
        else if n == 169 { Locale::Chu }
        else if n == 170 { Locale::Eus }
        else if n == 171 { Locale::Fao }
        else if n == 172 { Locale::Gla }
        else if n == 173 { Locale::Gle }
        else if n == 174 { Locale::Glg }
        else if n == 175 { Locale::Glv }
        else if n == 176 { Locale::Hat }
        else if n == 177 { Locale::Hau }
        else if n == 178 { Locale::Isl }
        else if n == 179 { Locale::Kir }
        else if n == 180 { Locale::Nor }
        else if n == 181 { Locale::Oci }
        else if n == 182 { Locale::San }
        else if n == 183 { Locale::Sme }
        else if n == 184 { Locale::Snd }
        else if n == 185 { Locale::Sqi }
        else if n == 186 { Locale::Tat }
        else if n == 187 { Locale::Uig }
        else if n == 188 { Locale::Wol }
        else if n == 189 { Locale::Yor }
        else if n == 190 { Locale::Abq }
        else if n == 191 { Locale::Aii }
        else if n == 192 { Locale::Ajp }
        else if n == 193 { Locale::Akk }
        else if n == 194 { Locale::Aln }
        else if n == 195 { Locale::Apu }
        else if n == 196 { Locale::Aqz }
        else if n == 197 { Locale::Arb }
        else if n == 198 { Locale::Arh }
        else if n == 199 { Locale::Arr }
        else if n == 200 { Locale::Axm }
        else if n == 201 { Locale::Azz }
        else if n == 202 { Locale::Bho }
        else if n == 203 { Locale::Bor }
        else if n == 204 { Locale::Brh }
        else if n == 205 { Locale::Bxr }
        else if n == 206 { Locale::Ceb }
        else if n == 207 { Locale::Cop }
        else if n == 208 { Locale::Cpg }
        else if n == 209 { Locale::Ctn }
        else if n == 210 { Locale::Egy }
        else if n == 211 { Locale::Eme }
        else if n == 212 { Locale::Ess }
        else if n == 213 { Locale::Frm }
        else if n == 214 { Locale::Fro }
        else if n == 215 { Locale::Got }
        else if n == 216 { Locale::Grc }
        else if n == 217 { Locale::Gub }
        else if n == 218 { Locale::Gun }
        else if n == 219 { Locale::Gwi }
        else if n == 220 { Locale::Gya }
        else if n == 221 { Locale::Hbo }
        else if n == 222 { Locale::Hit }
        else if n == 223 { Locale::Hsb }
        else if n == 224 { Locale::Hyw }
        else if n == 225 { Locale::Kbc }
        else if n == 226 { Locale::Kmr }
        else if n == 227 { Locale::Koi }
        else if n == 228 { Locale::Kpv }
        else if n == 229 { Locale::Krl }
        else if n == 230 { Locale::Lij }
        else if n == 231 { Locale::Lzh }
        else if n == 232 { Locale::Mdf }
        else if n == 233 { Locale::Myu }
        else if n == 234 { Locale::Myv }
        else if n == 235 { Locale::Naq }
        else if n == 236 { Locale::Nds }
        else if n == 237 { Locale::Nhi }
        else if n == 238 { Locale::Nmf }
        else if n == 239 { Locale::Oge }
        else if n == 240 { Locale::Olo }
        else if n == 241 { Locale::Orv }
        else if n == 242 { Locale::Ota }
        else if n == 243 { Locale::Pay }
        else if n == 244 { Locale::Pcm }
        else if n == 245 { Locale::Pro }
        else if n == 246 { Locale::Pst }
        else if n == 247 { Locale::Qaf }
        else if n == 248 { Locale::Qpm }
        else if n == 249 { Locale::Qtd }
        else if n == 250 { Locale::Qti }
        else if n == 251 { Locale::Quc }
        else if n == 252 { Locale::Ruc }
        else if n == 253 { Locale::Sab }
        else if n == 254 { Locale::Sah }
        else if n == 255 { Locale::Say }
        else if n == 256 { Locale::Scn }
        else if n == 257 { Locale::Sga }
        else if n == 258 { Locale::Sjo }
        else if n == 259 { Locale::Sms }
        else if n == 260 { Locale::Ssp }
        else if n == 261 { Locale::Tpn }
        else if n == 262 { Locale::Urb }
        else if n == 263 { Locale::Vep }
        else if n == 264 { Locale::Wbp }
        else if n == 265 { Locale::Wuu }
        else if n == 266 { Locale::Xav }
        else if n == 267 { Locale::Xcl }
        else if n == 268 { Locale::Xnr }
        else if n == 269 { Locale::Xpg }
        else if n == 270 { Locale::Xum }
        else if n == 271 { Locale::Yrk }
        else if n == 272 { Locale::Yrl }
        else if n == 273 { Locale::Yue }
        else if n == 274 { Locale::Zza }
        else { Locale::Cmn }
    }

    /// The code of the locale.
    pub open spec fn locale_code(self) -> Seq<char> {
        match self {
            Locale::Af => seq!['a', 'f'],
            Locale::Ak => seq!['a', 'k'],
            Locale::Am => seq!['a', 'm'],
            Locale::Ar => seq!['a', 'r'],
            Locale::Az => seq!['a', 'z'],
            Locale::Be => seq!['b', 'e'],
            Locale::Bn => seq!['b', 'n'],
            Locale::Bg => seq!['b', 'g'],
            Locale::Ca => seq!['c', 'a'],
            Locale::Cs => seq!['c', 's'],
            Locale::Cy => seq!['c', 'y'],
            Locale::Da => seq!['d', 'a'],
            Locale::De => seq!['d', 'e'],
            Locale::El => seq!['e', 'l'],
            Locale::En => seq!['e', 'n'],
            Locale::Eo => seq!['e', 'o'],
            Locale::Et => seq!['e', 't'],
            Locale::Fi => seq!['f', 'i'],
            Locale::Fr => seq!['f', 'r'],
            Locale::Gu => seq!['g', 'u'],
            Locale::He => seq!['h', 'e'],
            Locale::Hi => seq!['h', 'i'],
            Locale::Hr => seq!['h', 'r'],
            Locale::Hu => seq!['h', 'u'],
            Locale::Hy => seq!['h', 'y'],
            Locale::Id => seq!['i', 'd'],
            Locale::It => seq!['i', 't'],
            Locale::Jv => seq!['j', 'v'],
            Locale::Ja => seq!['j', 'a'],
            Locale::Kn => seq!['k', 'n'],
            Locale::Ka => seq!['k', 'a'],
            Locale::Kk => seq!['k', 'k'],
            Locale::Km => seq!['k', 'm'],
            Locale::Ko => seq!['k', 'o'],
            Locale::La => seq!['l', 'a'],
            Locale::Lv => seq!['l', 'v'],
            Locale::Lt => seq!['l', 't'],
            Locale::Ml => seq!['m', 'l'],
            Locale::Mr => seq!['m', 'r'],
            Locale::Mk => seq!['m', 'k'],
            Locale::My => seq!['m', 'y'],
            Locale::Ne => seq!['n', 'e'],
            Locale::Nl => seq!['n', 'l'],
            Locale::Nb => seq!['n', 'b'],
            Locale::Or => seq!['o', 'r'],
            Locale::Pa => seq!['p', 'a'],
            Locale::Fa => seq!['f', 'a'],
            Locale::Pl => seq!['p', 'l'],
            Locale::Pt => seq!['p', 't'],
            Locale::Ro => seq!['r', 'o'],
            Locale::Ru => seq!['r', 'u'],
            Locale::Si => seq!['s', 'i'],
            Locale::Sk => seq!['s', 'k'],
            Locale::Sl => seq!['s', 'l'],
            Locale::Sn => seq!['s', 'n'],
            Locale::Es => seq!['e', 's'],
            Locale::Sr => seq!['s', 'r'],
            Locale::Sv => seq!['s', 'v'],
            Locale::Ta => seq!['t', 'a'],
            Locale::Te => seq!['t', 'e'],
            Locale::Tl => seq!['t', 'l'],
            Locale::Th => seq!['t', 'h'],
            Locale::Tk => seq!['t', 'k'],
            Locale::Tr => seq!['t', 'r'],
            Locale::Uk => seq!['u', 'k'],
            Locale::Ur => seq!['u', 'r'],
            Locale::Uz => seq!['u', 'z'],
            Locale::Vi => seq!['v', 'i'],
            Locale::Yi => seq!['y', 'i'],
            Locale::Zh => seq!['z', 'h'],
            Locale::Zu => seq!['z', 'u'],
            Locale::Ab => seq!['a', 'b'],
            Locale::Bm => seq!['b', 'm'],
            Locale::Br => seq!['b', 'r'],
            Locale::Cu => seq!['c', 'u'],
            Locale::Eu => seq!['e', 'u'],
            Locale::Fo => seq!['f', 'o'],
            Locale::Gd => seq!['g', 'd'],
            Locale::Ga => seq!['g', 'a'],
            Locale::Gl => seq!['g', 'l'],
            Locale::Gv => seq!['g', 'v'],
            Locale::Ht => seq!['h', 't'],
            Locale::Ha => seq!['h', 'a'],
            Locale::Is => seq!['i', 's'],
            Locale::Ky => seq!['k', 'y'],
            Locale::No => seq!['n', 'o'],
            Locale::Oc => seq!['o', 'c'],
            Locale::Sa => seq!['s', 'a'],
            Locale::Se => seq!['s', 'e'],
            Locale::Sd => seq!['s', 'd'],
            Locale::Sq => seq!['s', 'q'],
            Locale::Tt => seq!['t', 't'],
            Locale::Ug => seq!['u', 'g'],
            Locale::Wo => seq!['w', 'o'],
            Locale::Yo => seq!['y', 'o'],
            Locale::Afr => seq!['a', 'f', 'r'],
            Locale::Aka => seq!['a', 'k', 'a'],
            Locale::Amh => seq!['a', 'm', 'h'],
            Locale::Ara => seq!['a', 'r', 'a'],
            Locale::Aze => seq!['a', 'z', 'e'],
            Locale::Bel => seq!['b', 'e', 'l'],
            Locale::Ben => seq!['b', 'e', 'n'],
            Locale::Bul => seq!['b', 'u', 'l'],
            Locale::Cat => seq!['c', 'a', 't'],
            Locale::Ces => seq!['c', 'e', 's'],
            Locale::Cym => seq!['c', 'y', 'm'],
            Locale::Dan => seq!['d', 'a', 'n'],
            Locale::Deu => seq!['d', 'e', 'u'],
            Locale::Ell => seq!['e', 'l', 'l'],
            Locale::Eng => seq!['e', 'n', 'g'],
            Locale::Epo => seq!['e', 'p', 'o'],
            Locale::Est => seq!['e', 's', 't'],
            Locale::Fin => seq!['f', 'i', 'n'],
            Locale::Fra => seq!['f', 'r', 'a'],
            Locale::Guj => seq!['g', 'u', 'j'],
            Locale::Heb => seq!['h', 'e', 'b'],
            Locale::Hin => seq!['h', 'i', 'n'],
            Locale::Hrv => seq!['h', 'r', 'v'],
            Locale::Hun => seq!['h', 'u', 'n'],
            Locale::Hye => seq!['h', 'y', 'e'],
            Locale::Ind => seq!['i', 'n', 'd'],
            Locale::Ita => seq!['i', 't', 'a'],
            Locale::Jav => seq!['j', 'a', 'v'],
            Locale::Jpn => seq!['j', 'p', 'n'],
            Locale::Kan => seq!['k', 'a', 'n'],
            Locale::Kat => seq!['k', 'a', 't'],
            Locale::Kaz => seq!['k', 'a', 'z'],
            Locale::Khm => seq!['k', 'h', 'm'],
            Locale::Kor => seq!['k', 'o', 'r'],
            Locale::Lat => seq!['l', 'a', 't'],
            Locale::Lav => seq!['l', 'a', 'v'],
            Locale::Lit => seq!['l', 'i', 't'],
            Locale::Mal => seq!['m', 'a', 'l'],
            Locale::Mar => seq!['m', 'a', 'r'],
            Locale::Mkd => seq!['m', 'k', 'd'],
            Locale::Mya => seq!['m', 'y', 'a'],
            Locale::Nep => seq!['n', 'e', 'p'],
            Locale::Nld => seq!['n', 'l', 'd'],
            Locale::Nob => seq!['n', 'o', 'b'],
            Locale::Ori => seq!['o', 'r', 'i'],
            Locale::Pan => seq!['p', 'a', 'n'],
            Locale::Pes => seq!['p', 'e', 's'],
            Locale::Pol => seq!['p', 'o', 'l'],
            Locale::Por => seq!['p', 'o', 'r'],
            Locale::Ron => seq!['r', 'o', 'n'],
            Locale::Rus => seq!['r', 'u', 's'],
            Locale::Sin => seq!['s', 'i', 'n'],
            Locale::Slk => seq!['s', 'l', 'k'],
            Locale::Slv => seq!['s', 'l', 'v'],
            Locale::Sna => seq!['s', 'n', 'a'],
            Locale::Spa => seq!['s', 'p', 'a'],
            Locale::Srp => seq!['s', 'r', 'p'],
            Locale::Swe => seq!['s', 'w', 'e'],
            Locale::Tam => seq!['t', 'a', 'm'],
            Locale::Tel => seq!['t', 'e', 'l'],
            Locale::Tgl => seq!['t', 'g', 'l'],
            Locale::Tha => seq!['t', 'h', 'a'],
            Locale::Tuk => seq!['t', 'u', 'k'],
            Locale::Tur => seq!['t', 'u', 'r'],
            Locale::Ukr => seq!['u', 'k', 'r'],
            Locale::Urd => seq!['u', 'r', 'd'],
            Locale::Uzb => seq!['u', 'z', 'b'],
            Locale::Vie => seq!['v', 'i', 'e'],
            Locale::Yid => seq!['y', 'i', 'd'],
            Locale::Zho => seq!['z', 'h', 'o'],
            Locale::Zul => seq!['z', 'u', 'l'],
            Locale::Abk => seq!['a', 'b', 'k'],
            Locale::Bam => seq!['b', 'a', 'm'],
            Locale::Bre => seq!['b', 'r', 'e'],
            Locale::Chu => seq!['c', 'h', 'u'],
            Locale::Eus => seq!['e', 'u', 's'],
            Locale::Fao => seq!['f', 'a', 'o'],
            Locale::Gla => seq!['g', 'l', 'a'],
            Locale::Gle => seq!['g', 'l', 'e'],
            Locale::Glg => seq!['g', 'l', 'g'],
            Locale::Glv => seq!['g', 'l', 'v'],
            Locale::Hat => seq!['h', 'a', 't'],
            Locale::Hau => seq!['h', 'a', 'u'],
            Locale::Isl => seq!['i', 's', 'l'],
            Locale::Kir => seq!['k', 'i', 'r'],
            Locale::Nor => seq!['n', 'o', 'r'],
            Locale::Oci => seq!['o', 'c', 'i'],
            Locale::San => seq!['s', 'a', 'n'],
            Locale::Sme => seq!['s', 'm', 'e'],
            Locale::Snd => seq!['s', 'n', 'd'],
            Locale::Sqi => seq!['s', 'q', 'i'],
            Locale::Tat => seq!['t', 'a', 't'],
            Locale::Uig => seq!['u', 'i', 'g'],
            Locale::Wol => seq!['w', 'o', 'l'],
            Locale::Yor => seq!['y', 'o', 'r'],
            Locale::Abq => seq!['a', 'b', 'q'],
            Locale::Aii => seq!['a', 'i', 'i'],
            Locale::Ajp => seq!['a', 'j', 'p'],
            Locale::Akk => seq!['a', 'k', 'k'],
            Locale::Aln => seq!['a', 'l', 'n'],
            Locale::Apu => seq!['a', 'p', 'u'],
            Locale::Aqz => seq!['a', 'q', 'z'],
            Locale::Arb => seq!['a', 'r', 'b'],
            Locale::Arh => seq!['a', 'r', 'h'],
            Locale::Arr => seq!['a', 'r', 'r'],
            Locale::Axm => seq!['a', 'x', 'm'],
            Locale::Azz => seq!['a', 'z', 'z'],
            Locale::Bho => seq!['b', 'h', 'o'],
            Locale::Bor => seq!['b', 'o', 'r'],
            Locale::Brh => seq!['b', 'r', 'h'],
            Locale::Bxr => seq!['b', 'x', 'r'],
            Locale::Ceb => seq!['c', 'e', 'b'],
            Locale::Cop => seq!['c', 'o', 'p'],
            Locale::Cpg => seq!['c', 'p', 'g'],
            Locale::Ctn => seq!['c', 't', 'n'],
            Locale::Egy => seq!['e', 'g', 'y'],
            Locale::Eme => seq!['e', 'm', 'e'],
            Locale::Ess => seq!['e', 's', 's'],
            Locale::Frm => seq!['f', 'r', 'm'],
            Locale::Fro => seq!['f', 'r', 'o'],
            Locale::Got => seq!['g', 'o', 't'],
            Locale::Grc => seq!['g', 'r', 'c'],
            Locale::Gub => seq!['g', 'u', 'b'],
            Locale::Gun => seq!['g', 'u', 'n'],
            Locale::Gwi => seq!['g', 'w', 'i'],
            Locale::Gya => seq!['g', 'y', 'a'],
            Locale::Hbo => seq!['h', 'b', 'o'],
            Locale::Hit => seq!['h', 'i', 't'],
            Locale::Hsb => seq!['h', 's', 'b'],
            Locale::Hyw => seq!['h', 'y', 'w'],
            Locale::Kbc => seq!['k', 'b', 'c'],
            Locale::Kmr => seq!['k', 'm', 'r'],
            Locale::Koi => seq!['k', 'o', 'i'],
            Locale::Kpv => seq!['k', 'p', 'v'],
            Locale::Krl => seq!['k', 'r', 'l'],
            Locale::Lij => seq!['l', 'i', 'j'],
            Locale::Lzh => seq!['l', 'z', 'h'],
            Locale::Mdf => seq!['m', 'd', 'f'],
            Locale::Myu => seq!['m', 'y', 'u'],
            Locale::Myv => seq!['m', 'y', 'v'],
            Locale::Naq => seq!['n', 'a', 'q'],
            Locale::Nds => seq!['n', 'd', 's'],
            Locale::Nhi => seq!['n', 'h', 'i'],
            Locale::Nmf => seq!['n', 'm', 'f'],
            Locale::Oge => seq!['o', 'g', 'e'],
            Locale::Olo => seq!['o', 'l', 'o'],
            Locale::Orv => seq!['o', 'r', 'v'],
            Locale::Ota => seq!['o', 't', 'a'],
            Locale::Pay => seq!['p', 'a', 'y'],
            Locale::Pcm => seq!['p', 'c', 'm'],
            Locale::Pro => seq!['p', 'r', 'o'],
            Locale::Pst => seq!['p', 's', 't'],
            Locale::Qaf => seq!['q', 'a', 'f'],
            Locale::Qpm => seq!['q', 'p', 'm'],
            Locale::Qtd => seq!['q', 't', 'd'],
            Locale::Qti => seq!['q', 't', 'i'],
            Locale::Quc => seq!['q', 'u', 'c'],
            Locale::Ruc => seq!['r', 'u', 'c'],
            Locale::Sab => seq!['s', 'a', 'b'],
            Locale::Sah => seq!['s', 'a', 'h'],
            Locale::Say => seq!['s', 'a', 'y'],
            Locale::Scn => seq!['s', 'c', 'n'],
            Locale::Sga => seq!['s', 'g', 'a'],
            Locale::Sjo => seq!['s', 'j', 'o'],
            Locale::Sms => seq!['s', 'm', 's'],
            Locale::Ssp => seq!['s', 's', 'p'],
            Locale::Tpn => seq!['t', 'p', 'n'],
            Locale::Urb => seq!['u', 'r', 'b'],
            Locale::Vep => seq!['v', 'e', 'p'],
            Locale::Wbp => seq!['w', 'b', 'p'],
            Locale::Wuu => seq!['w', 'u', 'u'],
            Locale::Xav => seq!['x', 'a', 'v'],
            Locale::Xcl => seq!['x', 'c', 'l'],
            Locale::Xnr => seq!['x', 'n', 'r'],
            Locale::Xpg => seq!['x', 'p', 'g'],
            Locale::Xum => seq!['x', 'u', 'm'],
            Locale::Yrk => seq!['y', 'r', 'k'],
            Locale::Yrl => seq!['y', 'r', 'l'],
            Locale::Yue => seq!['y', 'u', 'e'],
            Locale::Zza => seq!['z', 'z', 'a'],
            Locale::Cmn => seq!['c', 'm', 'n'],
        }
    }

    /// The language of the locale.
    pub open spec fn language(self) -> Language {
        match self {
            Locale::Af => Language::Afr,
            Locale::Ak => Language::Aka,
            Locale::Am => Language::Amh,
            Locale::Ar => Language::Ara,
            Locale::Az => Language::Aze,
            Locale::Be => Language::Bel,
            Locale::Bn => Language::Ben,
            Locale::Bg => Language::Bul,
            Locale::Ca => Language::Cat,
            Locale::Cs => Language::Ces,
            Locale::Cy => Language::Cym,
            Locale::Da => Language::Dan,
            Locale::De => Language::Deu,
            Locale::El => Language::Ell,
            Locale::En => Language::Eng,
            Locale::Eo => Language::Epo,
            Locale::Et => Language::Est,
            Locale::Fi => Language::Fin,
            Locale::Fr => Language::Fra,
            Locale::Gu => Language::Guj,
            Locale::He => Language::Heb,
            Locale::Hi => Language::Hin,
            Locale::Hr => Language::Hrv,
            Locale::Hu => Language::Hun,
            Locale::Hy => Language::Hye,
            Locale::Id => Language::Ind,
            Locale::It => Language::Ita,
            Locale::Jv => Language::Jav,
            Locale::Ja => Language::Jpn,
            Locale::Kn => Language::Kan,
            Locale::Ka => Language::Kat,
            Locale::Kk => Language::Kaz,
            Locale::Km => Language::Khm,
            Locale::Ko => Language::Kor,
            Locale::La => Language::Lat,
            Locale::Lv => Language::Lav,
            Locale::Lt => Language::Lit,
            Locale::Ml => Language::Mal,
            Locale::Mr => Language::Mar,
            Locale::Mk => Language::Mkd,
            Locale::My => Language::Mya,
            Locale::Ne => Language::Nep,
            Locale::Nl => Language::Nld,
            Locale::Nb => Language::Nob,
            Locale::Or => Language::Ori,
            Locale::Pa => Language::Pan,
            Locale::Fa => Language::Pes,
            Locale::Pl => Language::Pol,
            Locale::Pt => Language::Por,
            Locale::Ro => Language::Ron,
            Locale::Ru => Language::Rus,
            Locale::Si => Language::Sin,
            Locale::Sk => Language::Slk,
            Locale::Sl => Language::Slv,
            Locale::Sn => Language::Sna,
            Locale::Es => Language::Spa,
            Locale::Sr => Language::Srp,
            Locale::Sv => Language::Swe,
            Locale::Ta => Language::Tam,
            Locale::Te => Language::Tel,
            Locale::Tl => Language::Tgl,
            Locale::Th => Language::Tha,
            Locale::Tk => Language::Tuk,
            Locale::Tr => Language::Tur,
            Locale::Uk => Language::Ukr,
            Locale::Ur => Language::Urd,
            Locale::Uz => Language::Uzb,
            Locale::Vi => Language::Vie,
            Locale::Yi => Language::Yid,
            Locale::Zh => Language::Zho,
            Locale::Zu => Language::Zul,
            Locale::Ab => Language::Abk,
            Locale::Bm => Language::Bam,
            Locale::Br => Language::Bre,
            Locale::Cu => Language::Chu,
            Locale::Eu => Language::Eus,
            Locale::Fo => Language::Fao,
            Locale::Gd => Language::Gla,
            Locale::Ga => Language::Gle,
            Locale::Gl => Language::Glg,
            Locale::Gv => Language::Glv,
            Locale::Ht => Language::Hat,
            Locale::Ha => Language::Hau,
            Locale::Is => Language::Isl,
            Locale::Ky => Language::Kir,
            Locale::No => Language::Nor,
            Locale::Oc => Language::Oci,
            Locale::Sa => Language::San,
            Locale::Se => Language::Sme,
            Locale::Sd => Language::Snd,
            Locale::Sq => Language::Sqi,
            Locale::Tt => Language::Tat,
            Locale::Ug => Language::Uig,
            Locale::Wo => Language::Wol,
            Locale::Yo => Language::Yor,
            Locale::Afr => Language::Afr,
            Locale::Aka => Language::Aka,
            Locale::Amh => Language::Amh,
            Locale::Ara => Language::Ara,
            Locale::Aze => Language::Aze,
            Locale::Bel => Language::Bel,
            Locale::Ben => Language::Ben,
            Locale::Bul => Language::Bul,
            Locale::Cat => Language::Cat,
            Locale::Ces => Language::Ces,
            Locale::Cym => Language::Cym,
            Locale::Dan => Language::Dan,
            Locale::Deu => Language::Deu,
            Locale::Ell => Language::Ell,
            Locale::Eng => Language::Eng,
            Locale::Epo => Language::Epo,
            Locale::Est => Language::Est,
            Locale::Fin => Language::Fin,
            Locale::Fra => Language::Fra,
            Locale::Guj => Language::Guj,
            Locale::Heb => Language::Heb,
            Locale::Hin => Language::Hin,
            Locale::Hrv => Language::Hrv,
            Locale::Hun => Language::Hun,
            Locale::Hye => Language::Hye,
            Locale::Ind => Language::Ind,
            Locale::Ita => Language::Ita,
            Locale::Jav => Language::Jav,
            Locale::Jpn => Language::Jpn,
            Locale::Kan => Language::Kan,
            Locale::Kat => Language::Kat,
            Locale::Kaz => Language::Kaz,
            Locale::Khm => Language::Khm,
            Locale::Kor => Language::Kor,
            Locale::Lat => Language::Lat,
            Locale::Lav => Language::Lav,
            Locale::Lit => Language::Lit,
            Locale::Mal => Language::Mal,
            Locale::Mar => Language::Mar,
            Locale::Mkd => Language::Mkd,
            Locale::Mya => Language::Mya,
            Locale::Nep => Language::Nep,
            Locale::Nld => Language::Nld,
            Locale::Nob => Language::Nob,
            Locale::Ori => Language::Ori,
            Locale::Pan => Language::Pan,
            Locale::Pes => Language::Pes,
            Locale::Pol => Language::Pol,
            Locale::Por => Language::Por,
            Locale::Ron => Language::Ron,
            Locale::Rus => Language::Rus,
            Locale::Sin => Language::Sin,
            Locale::Slk => Language::Slk,
            Locale::Slv => Language::Slv,
            Locale::Sna => Language::Sna,
            Locale::Spa => Language::Spa,
            Locale::Srp => Language::Srp,
            Locale::Swe => Language::Swe,
            Locale::Tam => Language::Tam,
            Locale::Tel => Language::Tel,
            Locale::Tgl => Language::Tgl,
            Locale::Tha => Language::Tha,
            Locale::Tuk => Language::Tuk,
            Locale::Tur => Language::Tur,
            Locale::Ukr => Language::Ukr,
            Locale::Urd => Language::Urd,
            Locale::Uzb => Language::Uzb,
            Locale::Vie => Language::Vie,
            Locale::Yid => Language::Yid,
            Locale::Zho => Language::Zho,
            Locale::Zul => Language::Zul,
            Locale::Abk => Language::Abk,
            Locale::Bam => Language::Bam,
            Locale::Bre => Language::Bre,
            Locale::Chu => Language::Chu,
            Locale::Eus => Language::Eus,
            Locale::Fao => Language::Fao,
            Locale::Gla => Language::Gla,
            Locale::Gle => Language::Gle,
            Locale::Glg => Language::Glg,
            Locale::Glv => Language::Glv,
            Locale::Hat => Language::Hat,
            Locale::Hau => Language::Hau,
            Locale::Isl => Language::Isl,
            Locale::Kir => Language::Kir,
            Locale::Nor => Language::Nor,
            Locale::Oci => Language::Oci,
            Locale::San => Language::San,
            Locale::Sme => Language::Sme,
            Locale::Snd => Language::Snd,
            Locale::Sqi => Language::Sqi,
            Locale::Tat => Language::Tat,
            Locale::Uig => Language::Uig,
            Locale::Wol => Language::Wol,
            Locale::Yor => Language::Yor,
            Locale::Abq => Language::Abq,
            Locale::Aii => Language::Aii,
            Locale::Ajp => Language::Ajp,
            Locale::Akk => Language::Akk,
            Locale::Aln => Language::Aln,
            Locale::Apu => Language::Apu,
            Locale::Aqz => Language::Aqz,
            Locale::Arb => Language::Arb,
            Locale::Arh => Language::Arh,
            Locale::Arr => Language::Arr,
            Locale::Axm => Language::Axm,
            Locale::Azz => Language::Azz,
            Locale::Bho => Language::Bho,
            Locale::Bor => Language::Bor,
            Locale::Brh => Language::Brh,
            Locale::Bxr => Language::Bxr,
            Locale::Ceb => Language::Ceb,
            Locale::Cop => Language::Cop,
            Locale::Cpg => Language::Cpg,
            Locale::Ctn => Language::Ctn,
            Locale::Egy => Language::Egy,
            Locale::Eme => Language::Eme,
            Locale::Ess => Language::Ess,
            Locale::Frm => Language::Frm,
            Locale::Fro => Language::Fro,
            Locale::Got => Language::Got,
            Locale::Grc => Language::Grc,
            Locale::Gub => Language::Gub,
            Locale::Gun => Language::Gun,
            Locale::Gwi => Language::Gwi,
            Locale::Gya => Language::Gya,
            Locale::Hbo => Language::Hbo,
            Locale::Hit => Language::Hit,
            Locale::Hsb => Language::Hsb,
            Locale::Hyw => Language::Hyw,
            Locale::Kbc => Language::Kbc,
            Locale::Kmr => Language::Kmr,
            Locale::Koi => Language::Koi,
            Locale::Kpv => Language::Kpv,
            Locale::Krl => Language::Krl,
            Locale::Lij => Language::Lij,
            Locale::Lzh => Language::Lzh,
            Locale::Mdf => Language::Mdf,
            Locale::Myu => Language::Myu,
            Locale::Myv => Language::Myv,
            Locale::Naq => Language::Naq,
            Locale::Nds => Language::Nds,
            Locale::Nhi => Language::Nhi,
            Locale::Nmf => Language::Nmf,
            Locale::Oge => Language::Oge,
            Locale::Olo => Language::Olo,
            Locale::Orv => Language::Orv,
            Locale::Ota => Language::Ota,
            Locale::Pay => Language::Pay,
            Locale::Pcm => Language::Pcm,
            Locale::Pro => Language::Pro,
            Locale::Pst => Language::Pst,
            Locale::Qaf => Language::Qaf,
            Locale::Qpm => Language::Qpm,
            Locale::Qtd => Language::Qtd,
            Locale::Qti => Language::Qti,
            Locale::Quc => Language::Quc,
            Locale::Ruc => Language::Ruc,
            Locale::Sab => Language::Sab,
            Locale::Sah => Language::Sah,
            Locale::Say => Language::Say,
            Locale::Scn => Language::Scn,
            Locale::Sga => Language::Sga,
            Locale::Sjo => Language::Sjo,
            Locale::Sms => Language::Sms,
            Locale::Ssp => Language::Ssp,
            Locale::Tpn => Language::Tpn,
            Locale::Urb => Language::Urb,
            Locale::Vep => Language::Vep,
            Locale::Wbp => Language::Wbp,
            Locale::Wuu => Language::Wuu,
            Locale::Xav => Language::Xav,
            Locale::Xcl => Language::Xcl,
            Locale::Xnr => Language::Xnr,
            Locale::Xpg => Language::Xpg,
            Locale::Xum => Language::Xum,
            Locale::Yrk => Language::Yrk,
            Locale::Yrl => Language::Yrl,
            Locale::Yue => Language::Yue,
            Locale::Zza => Language::Zza,
            Locale::Cmn => Language::Cmn,
        }
    }

    /// The locale that names a language: its ISO 639-3 form.
    pub open spec fn of_language(l: Language) -> Locale {
        match l {
            Language::Zho => Locale::Zho,
            Language::Epo => Locale::Epo,
            Language::Eng => Locale::Eng,
            Language::Rus => Locale::Rus,
            Language::Cmn => Locale::Cmn,
            Language::Spa => Locale::Spa,
            Language::Por => Locale::Por,
            Language::Ita => Locale::Ita,
            Language::Ben => Locale::Ben,
            Language::Fra => Locale::Fra,
            Language::Deu => Locale::Deu,
            Language::Ukr => Locale::Ukr,
            Language::Kat => Locale::Kat,
            Language::Ara => Locale::Ara,
            Language::Hin => Locale::Hin,
            Language::Jpn => Locale::Jpn,
            Language::Heb => Locale::Heb,
            Language::Yid => Locale::Yid,
            Language::Pol => Locale::Pol,
            Language::Amh => Locale::Amh,
            Language::Jav => Locale::Jav,
            Language::Kor => Locale::Kor,
            Language::Nob => Locale::Nob,
            Language::Dan => Locale::Dan,
            Language::Swe => Locale::Swe,
            Language::Fin => Locale::Fin,
            Language::Tur => Locale::Tur,
            Language::Nld => Locale::Nld,
            Language::Hun => Locale::Hun,
            Language::Ces => Locale::Ces,
            Language::Ell => Locale::Ell,
            Language::Bul => Locale::Bul,
            Language::Bel => Locale::Bel,
            Language::Mar => Locale::Mar,
            Language::Kan => Locale::Kan,
            Language::Ron => Locale::Ron,
            Language::Slv => Locale::Slv,
            Language::Hrv => Locale::Hrv,
            Language::Srp => Locale::Srp,
            Language::Mkd => Locale::Mkd,
            Language::Lit => Locale::Lit,
            Language::Lav => Locale::Lav,
            Language::Est => Locale::Est,
            Language::Tam => Locale::Tam,
            Language::Vie => Locale::Vie,
            Language::Urd => Locale::Urd,
            Language::Tha => Locale::Tha,
            Language::Guj => Locale::Guj,
            Language::Uzb => Locale::Uzb,
            Language::Pan => Locale::Pan,
            Language::Aze => Locale::Aze,
            Language::Ind => Locale::Ind,
            Language::Tel => Locale::Tel,
            Language::Pes => Locale::Pes,
            Language::Mal => Locale::Mal,
            Language::Ori => Locale::Ori,
            Language::Mya => Locale::Mya,
            Language::Nep => Locale::Nep,
            Language::Sin => Locale::Sin,
            Language::Khm => Locale::Khm,
            Language::Tuk => Locale::Tuk,
            Language::Aka => Locale::Aka,
            Language::Zul => Locale::Zul,
            Language::Sna => Locale::Sna,
            Language::Afr => Locale::Afr,
            Language::Lat => Locale::Lat,
            Language::Slk => Locale::Slk,
            Language::Cat => Locale::Cat,
            Language::Tgl => Locale::Tgl,
            Language::Hye => Locale::Hye,
            Language::Cym => Locale::Cym,
            Language::Kaz => Locale::Kaz,
            Language::Abk => Locale::Abk,
            Language::Bam => Locale::Bam,
            Language::Bre => Locale::Bre,
            Language::Chu => Locale::Chu,
            Language::Eus => Locale::Eus,
            Language::Fao => Locale::Fao,
            Language::Gla => Locale::Gla,
            Language::Gle => Locale::Gle,
            Language::Glg => Locale::Glg,
            Language::Glv => Locale::Glv,
            Language::Hat => Locale::Hat,
            Language::Hau => Locale::Hau,
            Language::Isl => Locale::Isl,
            Language::Kir => Locale::Kir,
            Language::Nor => Locale::Nor,
            Language::Oci => Locale::Oci,
            Language::San => Locale::San,
            Language::Sme => Locale::Sme,
            Language::Snd => Locale::Snd,
            Language::Sqi => Locale::Sqi,
            Language::Tat => Locale::Tat,
            Language::Uig => Locale::Uig,
            Language::Wol => Locale::Wol,
            Language::Yor => Locale::Yor,
            Language::Abq => Locale::Abq,
            Language::Aii => Locale::Aii,
            Language::Ajp => Locale::Ajp,
            Language::Akk => Locale::Akk,
            Language::Aln => Locale::Aln,
            Language::Apu => Locale::Apu,
            Language::Aqz => Locale::Aqz,
            Language::Arb => Locale::Arb,
            Language::Arh => Locale::Arh,
            Language::Arr => Locale::Arr,
            Language::Axm => Locale::Axm,
            Language::Azz => Locale::Azz,
            Language::Bho => Locale::Bho,
            Language::Bor => Locale::Bor,
            Language::Brh => Locale::Brh,
            Language::Bxr => Locale::Bxr,
            Language::Ceb => Locale::Ceb,
            Language::Cop => Locale::Cop,
            Language::Cpg => Locale::Cpg,
            Language::Ctn => Locale::Ctn,
            Language::Egy => Locale::Egy,
            Language::Eme => Locale::Eme,
            Language::Ess => Locale::Ess,
            Language::Frm => Locale::Frm,
            Language::Fro => Locale::Fro,
            Language::Got => Locale::Got,
            Language::Grc => Locale::Grc,
            Language::Gub => Locale::Gub,
            Language::Gun => Locale::Gun,
            Language::Gwi => Locale::Gwi,
            Language::Gya => Locale::Gya,
            Language::Hbo => Locale::Hbo,
            Language::Hit => Locale::Hit,
            Language::Hsb => Locale::Hsb,
            Language::Hyw => Locale::Hyw,
            Language::Kbc => Locale::Kbc,
            Language::Kmr => Locale::Kmr,
            Language::Koi => Locale::Koi,
            Language::Kpv => Locale::Kpv,
            Language::Krl => Locale::Krl,
            Language::Lij => Locale::Lij,
            Language::Lzh => Locale::Lzh,
            Language::Mdf => Locale::Mdf,
            Language::Myu => Locale::Myu,
            Language::Myv => Locale::Myv,
            Language::Naq => Locale::Naq,
            Language::Nds => Locale::Nds,
            Language::Nhi => Locale::Nhi,
            Language::Nmf => Locale::Nmf,
            Language::Oge => Locale::Oge,
            Language::Olo => Locale::Olo,
            Language::Orv => Locale::Orv,
            Language::Ota => Locale::Ota,
            Language::Pay => Locale::Pay,
            Language::Pcm => Locale::Pcm,
            Language::Pro => Locale::Pro,
            Language::Pst => Locale::Pst,
            Language::Qaf => Locale::Qaf,
            Language::Qpm => Locale::Qpm,
            Language::Qtd => Locale::Qtd,
            Language::Qti => Locale::Qti,
            Language::Quc => Locale::Quc,
            Language::Ruc => Locale::Ruc,
            Language::Sab => Locale::Sab,
            Language::Sah => Locale::Sah,
            Language::Say => Locale::Say,
            Language::Scn => Locale::Scn,
            Language::Sga => Locale::Sga,
            Language::Sjo => Locale::Sjo,
            Language::Sms => Locale::Sms,
            Language::Ssp => Locale::Ssp,
            Language::Tpn => Locale::Tpn,
            Language::Urb => Locale::Urb,
            Language::Vep => Locale::Vep,
            Language::Wbp => Locale::Wbp,
            Language::Wuu => Locale::Wuu,
            Language::Xav => Locale::Xav,
            Language::Xcl => Locale::Xcl,
            Language::Xnr => Locale::Xnr,
            Language::Xpg => Locale::Xpg,
            Language::Xum => Locale::Xum,
            Language::Yrk => Locale::Yrk,
            Language::Yrl => Locale::Yrl,
            Language::Yue => Locale::Yue,
            Language::Zza => Locale::Zza,
        }
    }

    /// Every locale has a place below `LOCALE_COUNT`, and the place names it.
    pub proof fn lemma_position(self)
        ensures
            self.position() < LOCALE_COUNT,
            Locale::at_position(self.position()) == self,
    {
    }

    /// Two locales with one place are one locale.
    pub proof fn lemma_position_injective(self, other: Locale)
        ensures
            self.position() == other.position() ==> self == other,
    {
        self.lemma_position();
        other.lemma_position();
    }

    /// The locale at place `n` of the table.
    #[verifier::rlimit(50)]
    pub fn by_rank(n: u16) -> (l: Locale)
        requires
            n < LOCALE_COUNT,
        ensures
            l == Locale::at_position(n as nat),
            l.position() == n,
    {
        if n == 0 { Locale::Af }
        else if n == 1 { Locale::Ak }
        else if n == 2 { Locale::Am }
        else if n == 3 { Locale::Ar }
        else if n == 4 { Locale::Az }
        else if n == 5 { Locale::Be }
        else if n == 6 { Locale::Bn }
        else if n == 7 { Locale::Bg }
        else if n == 8 { Locale::Ca }
        else if n == 9 { Locale::Cs }
        else if n == 10 { Locale::Cy }
        else if n == 11 { Locale::Da }
        else if n == 12 { Locale::De }
        else if n == 13 { Locale::El }
        else if n == 14 { Locale::En }
        else if n == 15 { Locale::Eo }
        else if n == 16 { Locale::Et }
        else if n == 17 { Locale::Fi }
        else if n == 18 { Locale::Fr }
        else if n == 19 { Locale::Gu }
        else if n == 20 { Locale::He }
        else if n == 21 { Locale::Hi }
        else if n == 22 { Locale::Hr }
        else if n == 23 { Locale::Hu }
        else if n == 24 { Locale::Hy }
        else if n == 25 { Locale::Id }
        else if n == 26 { Locale::It }
        else if n == 27 { Locale::Jv }
        else if n == 28 { Locale::Ja }
        else if n == 29 { Locale::Kn }
        else if n == 30 { Locale::Ka }
        else if n == 31 { Locale::Kk }
        else if n == 32 { Locale::Km }
        else if n == 33 { Locale::Ko }
        else if n == 34 { Locale::La }
        else if n == 35 { Locale::Lv }
        else if n == 36 { Locale::Lt }
        else if n == 37 { Locale::Ml }
        else if n == 38 { Locale::Mr }
        else if n == 39 { Locale::Mk }
        else if n == 40 { Locale::My }
        else if n == 41 { Locale::Ne }
        else if n == 42 { Locale::Nl }
        else if n == 43 { Locale::Nb }
        else if n == 44 { Locale::Or }
        else if n == 45 { Locale::Pa }
        else if n == 46 { Locale::Fa }
        else if n == 47 { Locale::Pl }
        else if n == 48 { Locale::Pt }
        else if n == 49 { Locale::Ro }
        else if n == 50 { Locale::Ru }
        else if n == 51 { Locale::Si }
        else if n == 52 { Locale::Sk }
        else if n == 53 { Locale::Sl }
        else if n == 54 { Locale::Sn }
        else if n == 55 { Locale::Es }
        else if n == 56 { Locale::Sr }
        else if n == 57 { Locale::Sv }
        else if n == 58 { Locale::Ta }
        else if n == 59 { Locale::Te }
        else if n == 60 { Locale::Tl }
        else if n == 61 { Locale::Th }
        else if n == 62 { Locale::Tk }
        else if n == 63 { Locale::Tr }
        else if n == 64 { Locale::Uk }
        else if n == 65 { Locale::Ur }
        else if n == 66 { Locale::Uz }
        else if n == 67 { Locale::Vi }
        else if n == 68 { Locale::Yi }
        else if n == 69 { Locale::Zh }
        else if n == 70 { Locale::Zu }
        else if n == 71 { Locale::Ab }
        else if n == 72 { Locale::Bm }
        else if n == 73 { Locale::Br }
        else if n == 74 { Locale::Cu }
        else if n == 75 { Locale::Eu }
        else if n == 76 { Locale::Fo }
        else if n == 77 { Locale::Gd }
        else if n == 78 { Locale::Ga }
        else if n == 79 { Locale::Gl }
        else if n == 80 { Locale::Gv }
        else if n == 81 { Locale::Ht }
        else if n == 82 { Locale::Ha }
        else if n == 83 { Locale::Is }
        else if n == 84 { Locale::Ky }
        else if n == 85 { Locale::No }
        else if n == 86 { Locale::Oc }
        else if n == 87 { Locale::Sa }
        else if n == 88 { Locale::Se }
        else if n == 89 { Locale::Sd }
        else if n == 90 { Locale::Sq }
        else if n == 91 { Locale::Tt }
        else if n == 92 { Locale::Ug }
        else if n == 93 { Locale::Wo }
        else if n == 94 { Locale::Yo }
        else if n == 95 { Locale::Afr }
        else if n == 96 { Locale::Aka }
        else if n == 97 { Locale::Amh }
        else if n == 98 { Locale::Ara }
        else if n == 99 { Locale::Aze }
        else if n == 100 { Locale::Bel }
        else if n == 101 { Locale::Ben }
        else if n == 102 { Locale::Bul }
        else if n == 103 { Locale::Cat }
        else if n == 104 { Locale::Ces }
        else if n == 105 { Locale::Cym }
        else if n == 106 { Locale::Dan }
        else if n == 107 { Locale::Deu }
        else if n == 108 { Locale::Ell }
        else if n == 109 { Locale::Eng }
        else if n == 110 { Locale::Epo }
        else if n == 111 { Locale::Est }
        else if n == 112 { Locale::Fin }
        else if n == 113 { Locale::Fra }
        else if n == 114 { Locale::Guj }
        else if n == 115 { Locale::Heb }
        else if n == 116 { Locale::Hin }
        else if n == 117 { Locale::Hrv }
        else if n == 118 { Locale::Hun }
        else if n == 119 { Locale::Hye }
        else if n == 120 { Locale::Ind }
        else if n == 121 { Locale::Ita }
        else if n == 122 { Locale::Jav }
        else if n == 123 { Locale::Jpn }
        else if n == 124 { Locale::Kan }
        else if n == 125 { Locale::Kat }
        else if n == 126 { Locale::Kaz }
        else if n == 127 { Locale::Khm }
        else if n == 128 { Locale::Kor }
        else if n == 129 { Locale::Lat }
        else if n == 130 { Locale::Lav }
        else if n == 131 { Locale::Lit }
        else if n == 132 { Locale::Mal }
        else if n == 133 { Locale::Mar }
        else if n == 134 { Locale::Mkd }
        else if n == 135 { Locale::Mya }
        else if n == 136 { Locale::Nep }
        else if n == 137 { Locale::Nld }
        else if n == 138 { Locale::Nob }
        else if n == 139 { Locale::Ori }
        else if n == 140 { Locale::Pan }
        else if n == 141 { Locale::Pes }
        else if n == 142 { Locale::Pol }
        else if n == 143 { Locale::Por }
        else if n == 144 { Locale::Ron }
        else if n == 145 { Locale::Rus }
        else if n == 146 { Locale::Sin }
        else if n == 147 { Locale::Slk }
        else if n == 148 { Locale::Slv }
        else if n == 149 { Locale::Sna }
        else if n == 150 { Locale::Spa }
        else if n == 151 { Locale::Srp }
        else if n == 152 { Locale::Swe }
        else if n == 153 { Locale::Tam }
        else if n == 154 { Locale::Tel }
        else if n == 155 { Locale::Tgl }
        else if n == 156 { Locale::Tha }
        else if n == 157 { Locale::Tuk }
        else if n == 158 { Locale::Tur }
        else if n == 159 { Locale::Ukr }
        else if n == 160 { Locale::Urd }
        else if n == 161 { Locale::Uzb }
        else if n == 162 { Locale::Vie }
        else if n == 163 { Locale::Yid }
        else if n == 164 { Locale::Zho }
        else if n == 165 { Locale::Zul }
        else if n == 166 { Locale::Abk }
        else if n == 167 { Locale::Bam }
        else if n == 168 { Locale::Bre }
        else if n == 169 { Locale::Chu }
        else if n == 170 { Locale::Eus }
        else if n == 171 { Locale::Fao }
        else if n == 172 { Locale::Gla }
        else if n == 173 { Locale::Gle }
        else if n == 174 { Locale::Glg }
        else if n == 175 { Locale::Glv }
        else if n == 176 { Locale::Hat }
        else if n == 177 { Locale::Hau }
        else if n == 178 { Locale::Isl }
        else if n == 179 { Locale::Kir }
        else if n == 180 { Locale::Nor }
        else if n == 181 { Locale::Oci }
        else if n == 182 { Locale::San }
        else if n == 183 { Locale::Sme }
        else if n == 184 { Locale::Snd }
        else if n == 185 { Locale::Sqi }
        else if n == 186 { Locale::Tat }
        else if n == 187 { Locale::Uig }
        else if n == 188 { Locale::Wol }
        else if n == 189 { Locale::Yor }
        else if n == 190 { Locale::Abq }
        else if n == 191 { Locale::Aii }
        else if n == 192 { Locale::Ajp }
        else if n == 193 { Locale::Akk }
        else if n == 194 { Locale::Aln }
        else if n == 195 { Locale::Apu }
        else if n == 196 { Locale::Aqz }
        else if n == 197 { Locale::Arb }
        else if n == 198 { Locale::Arh }
        else if n == 199 { Locale::Arr }
        else if n == 200 { Locale::Axm }
        else if n == 201 { Locale::Azz }
        else if n == 202 { Locale::Bho }
        else if n == 203 { Locale::Bor }
        else if n == 204 { Locale::Brh }
        else if n == 205 { Locale::Bxr }
        else if n == 206 { Locale::Ceb }
        else if n == 207 { Locale::Cop }
        else if n == 208 { Locale::Cpg }
        else if n == 209 { Locale::Ctn }
        else if n == 210 { Locale::Egy }
        else if n == 211 { Locale::Eme }
        else if n == 212 { Locale::Ess }
        else if n == 213 { Locale::Frm }
        else if n == 214 { Locale::Fro }
        else if n == 215 { Locale::Got }
        else if n == 216 { Locale::Grc }
        else if n == 217 { Locale::Gub }
        else if n == 218 { Locale::Gun }
        else if n == 219 { Locale::Gwi }
        else if n == 220 { Locale::Gya }
        else if n == 221 { Locale::Hbo }
        else if n == 222 { Locale::Hit }
        else if n == 223 { Locale::Hsb }
        else if n == 224 { Locale::Hyw }
        else if n == 225 { Locale::Kbc }
        else if n == 226 { Locale::Kmr }
        else if n == 227 { Locale::Koi }
        else if n == 228 { Locale::Kpv }
        else if n == 229 { Locale::Krl }
        else if n == 230 { Locale::Lij }
        else if n == 231 { Locale::Lzh }
        else if n == 232 { Locale::Mdf }
        else if n == 233 { Locale::Myu }
        else if n == 234 { Locale::Myv }
        else if n == 235 { Locale::Naq }
        else if n == 236 { Locale::Nds }
        else if n == 237 { Locale::Nhi }
        else if n == 238 { Locale::Nmf }
        else if n == 239 { Locale::Oge }
        else if n == 240 { Locale::Olo }
        else if n == 241 { Locale::Orv }
        else if n == 242 { Locale::Ota }
        else if n == 243 { Locale::Pay }
        else if n == 244 { Locale::Pcm }
        else if n == 245 { Locale::Pro }
        else if n == 246 { Locale::Pst }
        else if n == 247 { Locale::Qaf }
        else if n == 248 { Locale::Qpm }
        else if n == 249 { Locale::Qtd }
        else if n == 250 { Locale::Qti }
        else if n == 251 { Locale::Quc }
        else if n == 252 { Locale::Ruc }
        else if n == 253 { Locale::Sab }
        else if n == 254 { Locale::Sah }
        else if n == 255 { Locale::Say }
        else if n == 256 { Locale::Scn }
        else if n == 257 { Locale::Sga }
        else if n == 258 { Locale::Sjo }
        else if n == 259 { Locale::Sms }
        else if n == 260 { Locale::Ssp }
        else if n == 261 { Locale::Tpn }
        else if n == 262 { Locale::Urb }
        else if n == 263 { Locale::Vep }
        else if n == 264 { Locale::Wbp }
        else if n == 265 { Locale::Wuu }
        else if n == 266 { Locale::Xav }
        else if n == 267 { Locale::Xcl }
        else if n == 268 { Locale::Xnr }
        else if n == 269 { Locale::Xpg }
        else if n == 270 { Locale::Xum }
        else if n == 271 { Locale::Yrk }
        else if n == 272 { Locale::Yrl }
        else if n == 273 { Locale::Yue }
        else if n == 274 { Locale::Zza }
        else { Locale::Cmn }
    }

    /// The characters of the code of the locale.
    pub fn code_chars(&self) -> (c: Vec<char>)
        ensures
            c@ == self.locale_code(),
    {
        match self {
            Locale::Af => vec!['a', 'f'],
            Locale::Ak => vec!['a', 'k'],
            Locale::Am => vec!['a', 'm'],
            Locale::Ar => vec!['a', 'r'],
            Locale::Az => vec!['a', 'z'],
            Locale::Be => vec!['b', 'e'],
            Locale::Bn => vec!['b', 'n'],
            Locale::Bg => vec!['b', 'g'],
            Locale::Ca => vec!['c', 'a'],
            Locale::Cs => vec!['c', 's'],
            Locale::Cy => vec!['c', 'y'],
            Locale::Da => vec!['d', 'a'],
            Locale::De => vec!['d', 'e'],
            Locale::El => vec!['e', 'l'],
            Locale::En => vec!['e', 'n'],
            Locale::Eo => vec!['e', 'o'],
            Locale::Et => vec!['e', 't'],
            Locale::Fi => vec!['f', 'i'],
            Locale::Fr => vec!['f', 'r'],
            Locale::Gu => vec!['g', 'u'],
            Locale::He => vec!['h', 'e'],
            Locale::Hi => vec!['h', 'i'],
            Locale::Hr => vec!['h', 'r'],
            Locale::Hu => vec!['h', 'u'],
            Locale::Hy => vec!['h', 'y'],
            Locale::Id => vec!['i', 'd'],
            Locale::It => vec!['i', 't'],
            Locale::Jv => vec!['j', 'v'],
            Locale::Ja => vec!['j', 'a'],
            Locale::Kn => vec!['k', 'n'],
            Locale::Ka => vec!['k', 'a'],
            Locale::Kk => vec!['k', 'k'],
            Locale::Km => vec!['k', 'm'],
            Locale::Ko => vec!['k', 'o'],
            Locale::La => vec!['l', 'a'],
            Locale::Lv => vec!['l', 'v'],
            Locale::Lt => vec!['l', 't'],
            Locale::Ml => vec!['m', 'l'],
            Locale::Mr => vec!['m', 'r'],
            Locale::Mk => vec!['m', 'k'],
            Locale::My => vec!['m', 'y'],
            Locale::Ne => vec!['n', 'e'],
            Locale::Nl => vec!['n', 'l'],
            Locale::Nb => vec!['n', 'b'],
            Locale::Or => vec!['o', 'r'],
            Locale::Pa => vec!['p', 'a'],
            Locale::Fa => vec!['f', 'a'],
            Locale::Pl => vec!['p', 'l'],
            Locale::Pt => vec!['p', 't'],
            Locale::Ro => vec!['r', 'o'],
            Locale::Ru => vec!['r', 'u'],
            Locale::Si => vec!['s', 'i'],
            Locale::Sk => vec!['s', 'k'],
            Locale::Sl => vec!['s', 'l'],
            Locale::Sn => vec!['s', 'n'],
            Locale::Es => vec!['e', 's'],
            Locale::Sr => vec!['s', 'r'],
            Locale::Sv => vec!['s', 'v'],
            Locale::Ta => vec!['t', 'a'],
            Locale::Te => vec!['t', 'e'],
            Locale::Tl => vec!['t', 'l'],
            Locale::Th => vec!['t', 'h'],
            Locale::Tk => vec!['t', 'k'],
            Locale::Tr => vec!['t', 'r'],
            Locale::Uk => vec!['u', 'k'],
            Locale::Ur => vec!['u', 'r'],
            Locale::Uz => vec!['u', 'z'],
            Locale::Vi => vec!['v', 'i'],
            Locale::Yi => vec!['y', 'i'],
            Locale::Zh => vec!['z', 'h'],
            Locale::Zu => vec!['z', 'u'],
            Locale::Ab => vec!['a', 'b'],
            Locale::Bm => vec!['b', 'm'],
            Locale::Br => vec!['b', 'r'],
            Locale::Cu => vec!['c', 'u'],
            Locale::Eu => vec!['e', 'u'],
            Locale::Fo => vec!['f', 'o'],
            Locale::Gd => vec!['g', 'd'],
            Locale::Ga => vec!['g', 'a'],
            Locale::Gl => vec!['g', 'l'],
            Locale::Gv => vec!['g', 'v'],
            Locale::Ht => vec!['h', 't'],
            Locale::Ha => vec!['h', 'a'],
            Locale::Is => vec!['i', 's'],
            Locale::Ky => vec!['k', 'y'],
            Locale::No => vec!['n', 'o'],
            Locale::Oc => vec!['o', 'c'],
            Locale::Sa => vec!['s', 'a'],
            Locale::Se => vec!['s', 'e'],
            Locale::Sd => vec!['s', 'd'],
            Locale::Sq => vec!['s', 'q'],
            Locale::Tt => vec!['t', 't'],
            Locale::Ug => vec!['u', 'g'],
            Locale::Wo => vec!['w', 'o'],
            Locale::Yo => vec!['y', 'o'],
            Locale::Afr => vec!['a', 'f', 'r'],
            Locale::Aka => vec!['a', 'k', 'a'],
            Locale::Amh => vec!['a', 'm', 'h'],
            Locale::Ara => vec!['a', 'r', 'a'],
            Locale::Aze => vec!['a', 'z', 'e'],
            Locale::Bel => vec!['b', 'e', 'l'],
            Locale::Ben => vec!['b', 'e', 'n'],
            Locale::Bul => vec!['b', 'u', 'l'],
            Locale::Cat => vec!['c', 'a', 't'],
            Locale::Ces => vec!['c', 'e', 's'],
            Locale::Cym => vec!['c', 'y', 'm'],
            Locale::Dan => vec!['d', 'a', 'n'],
            Locale::Deu => vec!['d', 'e', 'u'],
            Locale::Ell => vec!['e', 'l', 'l'],
            Locale::Eng => vec!['e', 'n', 'g'],
            Locale::Epo => vec!['e', 'p', 'o'],
            Locale::Est => vec!['e', 's', 't'],
            Locale::Fin => vec!['f', 'i', 'n'],
            Locale::Fra => vec!['f', 'r', 'a'],
            Locale::Guj => vec!['g', 'u', 'j'],
            Locale::Heb => vec!['h', 'e', 'b'],
            Locale::Hin => vec!['h', 'i', 'n'],
            Locale::Hrv => vec!['h', 'r', 'v'],
            Locale::Hun => vec!['h', 'u', 'n'],
            Locale::Hye => vec!['h', 'y', 'e'],
            Locale::Ind => vec!['i', 'n', 'd'],
            Locale::Ita => vec!['i', 't', 'a'],
            Locale::Jav => vec!['j', 'a', 'v'],
            Locale::Jpn => vec!['j', 'p', 'n'],
            Locale::Kan => vec!['k', 'a', 'n'],
            Locale::Kat => vec!['k', 'a', 't'],
            Locale::Kaz => vec!['k', 'a', 'z'],
            Locale::Khm => vec!['k', 'h', 'm'],
            Locale::Kor => vec!['k', 'o', 'r'],
            Locale::Lat => vec!['l', 'a', 't'],
            Locale::Lav => vec!['l', 'a', 'v'],
            Locale::Lit => vec!['l', 'i', 't'],
            Locale::Mal => vec!['m', 'a', 'l'],
            Locale::Mar => vec!['m', 'a', 'r'],
            Locale::Mkd => vec!['m', 'k', 'd'],
            Locale::Mya => vec!['m', 'y', 'a'],
            Locale::Nep => vec!['n', 'e', 'p'],
            Locale::Nld => vec!['n', 'l', 'd'],
            Locale::Nob => vec!['n', 'o', 'b'],
            Locale::Ori => vec!['o', 'r', 'i'],
            Locale::Pan => vec!['p', 'a', 'n'],
            Locale::Pes => vec!['p', 'e', 's'],
            Locale::Pol => vec!['p', 'o', 'l'],
            Locale::Por => vec!['p', 'o', 'r'],
            Locale::Ron => vec!['r', 'o', 'n'],
            Locale::Rus => vec!['r', 'u', 's'],
            Locale::Sin => vec!['s', 'i', 'n'],
            Locale::Slk => vec!['s', 'l', 'k'],
            Locale::Slv => vec!['s', 'l', 'v'],
            Locale::Sna => vec!['s', 'n', 'a'],
            Locale::Spa => vec!['s', 'p', 'a'],
            Locale::Srp => vec!['s', 'r', 'p'],
            Locale::Swe => vec!['s', 'w', 'e'],
            Locale::Tam => vec!['t', 'a', 'm'],
            Locale::Tel => vec!['t', 'e', 'l'],
            Locale::Tgl => vec!['t', 'g', 'l'],
            Locale::Tha => vec!['t', 'h', 'a'],
            Locale::Tuk => vec!['t', 'u', 'k'],
            Locale::Tur => vec!['t', 'u', 'r'],
            Locale::Ukr => vec!['u', 'k', 'r'],
            Locale::Urd => vec!['u', 'r', 'd'],
            Locale::Uzb => vec!['u', 'z', 'b'],
            Locale::Vie => vec!['v', 'i', 'e'],
            Locale::Yid => vec!['y', 'i', 'd'],
            Locale::Zho => vec!['z', 'h', 'o'],
            Locale::Zul => vec!['z', 'u', 'l'],
            Locale::Abk => vec!['a', 'b', 'k'],
            Locale::Bam => vec!['b', 'a', 'm'],
            Locale::Bre => vec!['b', 'r', 'e'],
            Locale::Chu => vec!['c', 'h', 'u'],
            Locale::Eus => vec!['e', 'u', 's'],
            Locale::Fao => vec!['f', 'a', 'o'],
            Locale::Gla => vec!['g', 'l', 'a'],
            Locale::Gle => vec!['g', 'l', 'e'],
            Locale::Glg => vec!['g', 'l', 'g'],
            Locale::Glv => vec!['g', 'l', 'v'],
            Locale::Hat => vec!['h', 'a', 't'],
            Locale::Hau => vec!['h', 'a', 'u'],
            Locale::Isl => vec!['i', 's', 'l'],
            Locale::Kir => vec!['k', 'i', 'r'],
            Locale::Nor => vec!['n', 'o', 'r'],
            Locale::Oci => vec!['o', 'c', 'i'],
            Locale::San => vec!['s', 'a', 'n'],
            Locale::Sme => vec!['s', 'm', 'e'],
            Locale::Snd => vec!['s', 'n', 'd'],
            Locale::Sqi => vec!['s', 'q', 'i'],
            Locale::Tat => vec!['t', 'a', 't'],
            Locale::Uig => vec!['u', 'i', 'g'],
            Locale::Wol => vec!['w', 'o', 'l'],
            Locale::Yor => vec!['y', 'o', 'r'],
            Locale::Abq => vec!['a', 'b', 'q'],
            Locale::Aii => vec!['a', 'i', 'i'],
            Locale::Ajp => vec!['a', 'j', 'p'],
            Locale::Akk => vec!['a', 'k', 'k'],
            Locale::Aln => vec!['a', 'l', 'n'],
            Locale::Apu => vec!['a', 'p', 'u'],
            Locale::Aqz => vec!['a', 'q', 'z'],
            Locale::Arb => vec!['a', 'r', 'b'],
            Locale::Arh => vec!['a', 'r', 'h'],
            Locale::Arr => vec!['a', 'r', 'r'],
            Locale::Axm => vec!['a', 'x', 'm'],
            Locale::Azz => vec!['a', 'z', 'z'],
            Locale::Bho => vec!['b', 'h', 'o'],
            Locale::Bor => vec!['b', 'o', 'r'],
            Locale::Brh => vec!['b', 'r', 'h'],
            Locale::Bxr => vec!['b', 'x', 'r'],
            Locale::Ceb => vec!['c', 'e', 'b'],
            Locale::Cop => vec!['c', 'o', 'p'],
            Locale::Cpg => vec!['c', 'p', 'g'],
            Locale::Ctn => vec!['c', 't', 'n'],
            Locale::Egy => vec!['e', 'g', 'y'],
            Locale::Eme => vec!['e', 'm', 'e'],
            Locale::Ess => vec!['e', 's', 's'],
            Locale::Frm => vec!['f', 'r', 'm'],
            Locale::Fro => vec!['f', 'r', 'o'],
            Locale::Got => vec!['g', 'o', 't'],
            Locale::Grc => vec!['g', 'r', 'c'],
            Locale::Gub => vec!['g', 'u', 'b'],
            Locale::Gun => vec!['g', 'u', 'n'],
            Locale::Gwi => vec!['g', 'w', 'i'],
            Locale::Gya => vec!['g', 'y', 'a'],
            Locale::Hbo => vec!['h', 'b', 'o'],
            Locale::Hit => vec!['h', 'i', 't'],
            Locale::Hsb => vec!['h', 's', 'b'],
            Locale::Hyw => vec!['h', 'y', 'w'],
            Locale::Kbc => vec!['k', 'b', 'c'],
            Locale::Kmr => vec!['k', 'm', 'r'],
            Locale::Koi => vec!['k', 'o', 'i'],
            Locale::Kpv => vec!['k', 'p', 'v'],
            Locale::Krl => vec!['k', 'r', 'l'],
            Locale::Lij => vec!['l', 'i', 'j'],
            Locale::Lzh => vec!['l', 'z', 'h'],
            Locale::Mdf => vec!['m', 'd', 'f'],
            Locale::Myu => vec!['m', 'y', 'u'],
            Locale::Myv => vec!['m', 'y', 'v'],
            Locale::Naq => vec!['n', 'a', 'q'],
            Locale::Nds => vec!['n', 'd', 's'],
            Locale::Nhi => vec!['n', 'h', 'i'],
            Locale::Nmf => vec!['n', 'm', 'f'],
            Locale::Oge => vec!['o', 'g', 'e'],
            Locale::Olo => vec!['o', 'l', 'o'],
            Locale::Orv => vec!['o', 'r', 'v'],
            Locale::Ota => vec!['o', 't', 'a'],
            Locale::Pay => vec!['p', 'a', 'y'],
            Locale::Pcm => vec!['p', 'c', 'm'],
            Locale::Pro => vec!['p', 'r', 'o'],
            Locale::Pst => vec!['p', 's', 't'],
            Locale::Qaf => vec!['q', 'a', 'f'],
            Locale::Qpm => vec!['q', 'p', 'm'],
            Locale::Qtd => vec!['q', 't', 'd'],
            Locale::Qti => vec!['q', 't', 'i'],
            Locale::Quc => vec!['q', 'u', 'c'],
            Locale::Ruc => vec!['r', 'u', 'c'],
            Locale::Sab => vec!['s', 'a', 'b'],
            Locale::Sah => vec!['s', 'a', 'h'],
            Locale::Say => vec!['s', 'a', 'y'],
            Locale::Scn => vec!['s', 'c', 'n'],
            Locale::Sga => vec!['s', 'g', 'a'],
            Locale::Sjo => vec!['s', 'j', 'o'],
            Locale::Sms => vec!['s', 'm', 's'],
            Locale::Ssp => vec!['s', 's', 'p'],
            Locale::Tpn => vec!['t', 'p', 'n'],
            Locale::Urb => vec!['u', 'r', 'b'],
            Locale::Vep => vec!['v', 'e', 'p'],
            Locale::Wbp => vec!['w', 'b', 'p'],
            Locale::Wuu => vec!['w', 'u', 'u'],
            Locale::Xav => vec!['x', 'a', 'v'],
            Locale::Xcl => vec!['x', 'c', 'l'],
            Locale::Xnr => vec!['x', 'n', 'r'],
            Locale::Xpg => vec!['x', 'p', 'g'],
            Locale::Xum => vec!['x', 'u', 'm'],
            Locale::Yrk => vec!['y', 'r', 'k'],
            Locale::Yrl => vec!['y', 'r', 'l'],
            Locale::Yue => vec!['y', 'u', 'e'],
            Locale::Zza => vec!['z', 'z', 'a'],
            Locale::Cmn => vec!['c', 'm', 'n'],
        }
    }

    /// The language of the locale.
    pub fn to_language(self) -> (l: Language)
        ensures
            l == self.language(),
    {
        match self {
            Locale::Af => Language::Afr,
            Locale::Ak => Language::Aka,
            Locale::Am => Language::Amh,
            Locale::Ar => Language::Ara,
            Locale::Az => Language::Aze,
            Locale::Be => Language::Bel,
            Locale::Bn => Language::Ben,
            Locale::Bg => Language::Bul,
            Locale::Ca => Language::Cat,
            Locale::Cs => Language::Ces,
            Locale::Cy => Language::Cym,
            Locale::Da => Language::Dan,
            Locale::De => Language::Deu,
            Locale::El => Language::Ell,
            Locale::En => Language::Eng,
            Locale::Eo => Language::Epo,
            Locale::Et => Language::Est,
            Locale::Fi => Language::Fin,
            Locale::Fr => Language::Fra,
            Locale::Gu => Language::Guj,
            Locale::He => Language::Heb,
            Locale::Hi => Language::Hin,
            Locale::Hr => Language::Hrv,
            Locale::Hu => Language::Hun,
            Locale::Hy => Language::Hye,
            Locale::Id => Language::Ind,
            Locale::It => Language::Ita,
            Locale::Jv => Language::Jav,
            Locale::Ja => Language::Jpn,
            Locale::Kn => Language::Kan,
            Locale::Ka => Language::Kat,
            Locale::Kk => Language::Kaz,
            Locale::Km => Language::Khm,
            Locale::Ko => Language::Kor,
            Locale::La => Language::Lat,
            Locale::Lv => Language::Lav,
            Locale::Lt => Language::Lit,
            Locale::Ml => Language::Mal,
            Locale::Mr => Language::Mar,
            Locale::Mk => Language::Mkd,
            Locale::My => Language::Mya,
            Locale::Ne => Language::Nep,
            Locale::Nl => Language::Nld,
            Locale::Nb => Language::Nob,
            Locale::Or => Language::Ori,
            Locale::Pa => Language::Pan,
            Locale::Fa => Language::Pes,
            Locale::Pl => Language::Pol,
            Locale::Pt => Language::Por,
            Locale::Ro => Language::Ron,
            Locale::Ru => Language::Rus,
            Locale::Si => Language::Sin,
            Locale::Sk => Language::Slk,
            Locale::Sl => Language::Slv,
            Locale::Sn => Language::Sna,
            Locale::Es => Language::Spa,
            Locale::Sr => Language::Srp,
            Locale::Sv => Language::Swe,
            Locale::Ta => Language::Tam,
            Locale::Te => Language::Tel,
            Locale::Tl => Language::Tgl,
            Locale::Th => Language::Tha,
            Locale::Tk => Language::Tuk,
            Locale::Tr => Language::Tur,
            Locale::Uk => Language::Ukr,
            Locale::Ur => Language::Urd,
            Locale::Uz => Language::Uzb,
            Locale::Vi => Language::Vie,
            Locale::Yi => Language::Yid,
            Locale::Zh => Language::Zho,
            Locale::Zu => Language::Zul,
            Locale::Ab => Language::Abk,
            Locale::Bm => Language::Bam,
            Locale::Br => Language::Bre,
            Locale::Cu => Language::Chu,
            Locale::Eu => Language::Eus,
            Locale::Fo => Language::Fao,
            Locale::Gd => Language::Gla,
            Locale::Ga => Language::Gle,
            Locale::Gl => Language::Glg,
            Locale::Gv => Language::Glv,
            Locale::Ht => Language::Hat,
            Locale::Ha => Language::Hau,
            Locale::Is => Language::Isl,
            Locale::Ky => Language::Kir,
            Locale::No => Language::Nor,
            Locale::Oc => Language::Oci,
            Locale::Sa => Language::San,
            Locale::Se => Language::Sme,
            Locale::Sd => Language::Snd,
            Locale::Sq => Language::Sqi,
            Locale::Tt => Language::Tat,
            Locale::Ug => Language::Uig,
            Locale::Wo => Language::Wol,
            Locale::Yo => Language::Yor,
            Locale::Afr => Language::Afr,
            Locale::Aka => Language::Aka,
            Locale::Amh => Language::Amh,
            Locale::Ara => Language::Ara,
            Locale::Aze => Language::Aze,
            Locale::Bel => Language::Bel,
            Locale::Ben => Language::Ben,
            Locale::Bul => Language::Bul,
            Locale::Cat => Language::Cat,
            Locale::Ces => Language::Ces,
            Locale::Cym => Language::Cym,
            Locale::Dan => Language::Dan,
            Locale::Deu => Language::Deu,
            Locale::Ell => Language::Ell,
            Locale::Eng => Language::Eng,
            Locale::Epo => Language::Epo,
            Locale::Est => Language::Est,
            Locale::Fin => Language::Fin,
            Locale::Fra => Language::Fra,
            Locale::Guj => Language::Guj,
            Locale::Heb => Language::Heb,
            Locale::Hin => Language::Hin,
            Locale::Hrv => Language::Hrv,
            Locale::Hun => Language::Hun,
            Locale::Hye => Language::Hye,
            Locale::Ind => Language::Ind,
            Locale::Ita => Language::Ita,
            Locale::Jav => Language::Jav,
            Locale::Jpn => Language::Jpn,
            Locale::Kan => Language::Kan,
            Locale::Kat => Language::Kat,
            Locale::Kaz => Language::Kaz,
            Locale::Khm => Language::Khm,
            Locale::Kor => Language::Kor,
            Locale::Lat => Language::Lat,
            Locale::Lav => Language::Lav,
            Locale::Lit => Language::Lit,
            Locale::Mal => Language::Mal,
            Locale::Mar => Language::Mar,
            Locale::Mkd => Language::Mkd,
            Locale::Mya => Language::Mya,
            Locale::Nep => Language::Nep,
            Locale::Nld => Language::Nld,
            Locale::Nob => Language::Nob,
            Locale::Ori => Language::Ori,
            Locale::Pan => Language::Pan,
            Locale::Pes => Language::Pes,
            Locale::Pol => Language::Pol,
            Locale::Por => Language::Por,
            Locale::Ron => Language::Ron,
            Locale::Rus => Language::Rus,
            Locale::Sin => Language::Sin,
            Locale::Slk => Language::Slk,
            Locale::Slv => Language::Slv,
            Locale::Sna => Language::Sna,
            Locale::Spa => Language::Spa,
            Locale::Srp => Language::Srp,
            Locale::Swe => Language::Swe,
            Locale::Tam => Language::Tam,
            Locale::Tel => Language::Tel,
            Locale::Tgl => Language::Tgl,
            Locale::Tha => Language::Tha,
            Locale::Tuk => Language::Tuk,
            Locale::Tur => Language::Tur,
            Locale::Ukr => Language::Ukr,
            Locale::Urd => Language::Urd,
            Locale::Uzb => Language::Uzb,
            Locale::Vie => Language::Vie,
            Locale::Yid => Language::Yid,
            Locale::Zho => Language::Zho,
            Locale::Zul => Language::Zul,
            Locale::Abk => Language::Abk,
            Locale::Bam => Language::Bam,
            Locale::Bre => Language::Bre,
            Locale::Chu => Language::Chu,
            Locale::Eus => Language::Eus,
            Locale::Fao => Language::Fao,
            Locale::Gla => Language::Gla,
            Locale::Gle => Language::Gle,
            Locale::Glg => Language::Glg,
            Locale::Glv => Language::Glv,
            Locale::Hat => Language::Hat,
            Locale::Hau => Language::Hau,
            Locale::Isl => Language::Isl,
            Locale::Kir => Language::Kir,
            Locale::Nor => Language::Nor,
            Locale::Oci => Language::Oci,
            Locale::San => Language::San,
            Locale::Sme => Language::Sme,
            Locale::Snd => Language::Snd,
            Locale::Sqi => Language::Sqi,
            Locale::Tat => Language::Tat,
            Locale::Uig => Language::Uig,
            Locale::Wol => Language::Wol,
            Locale::Yor => Language::Yor,
            Locale::Abq => Language::Abq,
            Locale::Aii => Language::Aii,
            Locale::Ajp => Language::Ajp,
            Locale::Akk => Language::Akk,
            Locale::Aln => Language::Aln,
            Locale::Apu => Language::Apu,
            Locale::Aqz => Language::Aqz,
            Locale::Arb => Language::Arb,
            Locale::Arh => Language::Arh,
            Locale::Arr => Language::Arr,
            Locale::Axm => Language::Axm,
            Locale::Azz => Language::Azz,
            Locale::Bho => Language::Bho,
            Locale::Bor => Language::Bor,
            Locale::Brh => Language::Brh,
            Locale::Bxr => Language::Bxr,
            Locale::Ceb => Language::Ceb,
            Locale::Cop => Language::Cop,
            Locale::Cpg => Language::Cpg,
            Locale::Ctn => Language::Ctn,
            Locale::Egy => Language::Egy,
            Locale::Eme => Language::Eme,
            Locale::Ess => Language::Ess,
            Locale::Frm => Language::Frm,
            Locale::Fro => Language::Fro,
            Locale::Got => Language::Got,
            Locale::Grc => Language::Grc,
            Locale::Gub => Language::Gub,
            Locale::Gun => Language::Gun,
            Locale::Gwi => Language::Gwi,
            Locale::Gya => Language::Gya,
            Locale::Hbo => Language::Hbo,
            Locale::Hit => Language::Hit,
            Locale::Hsb => Language::Hsb,
            Locale::Hyw => Language::Hyw,
            Locale::Kbc => Language::Kbc,
            Locale::Kmr => Language::Kmr,
            Locale::Koi => Language::Koi,
            Locale::Kpv => Language::Kpv,
            Locale::Krl => Language::Krl,
            Locale::Lij => Language::Lij,
            Locale::Lzh => Language::Lzh,
            Locale::Mdf => Language::Mdf,
            Locale::Myu => Language::Myu,
            Locale::Myv => Language::Myv,
            Locale::Naq => Language::Naq,
            Locale::Nds => Language::Nds,
            Locale::Nhi => Language::Nhi,
            Locale::Nmf => Language::Nmf,
            Locale::Oge => Language::Oge,
            Locale::Olo => Language::Olo,
            Locale::Orv => Language::Orv,
            Locale::Ota => Language::Ota,
            Locale::Pay => Language::Pay,
            Locale::Pcm => Language::Pcm,
            Locale::Pro => Language::Pro,
            Locale::Pst => Language::Pst,
            Locale::Qaf => Language::Qaf,
            Locale::Qpm => Language::Qpm,
            Locale::Qtd => Language::Qtd,
            Locale::Qti => Language::Qti,
            Locale::Quc => Language::Quc,
            Locale::Ruc => Language::Ruc,
            Locale::Sab => Language::Sab,
            Locale::Sah => Language::Sah,
            Locale::Say => Language::Say,
            Locale::Scn => Language::Scn,
            Locale::Sga => Language::Sga,
            Locale::Sjo => Language::Sjo,
            Locale::Sms => Language::Sms,
            Locale::Ssp => Language::Ssp,
            Locale::Tpn => Language::Tpn,
            Locale::Urb => Language::Urb,
            Locale::Vep => Language::Vep,
            Locale::Wbp => Language::Wbp,
            Locale::Wuu => Language::Wuu,
            Locale::Xav => Language::Xav,
            Locale::Xcl => Language::Xcl,
            Locale::Xnr => Language::Xnr,
            Locale::Xpg => Language::Xpg,
            Locale::Xum => Language::Xum,
            Locale::Yrk => Language::Yrk,
            Locale::Yrl => Language::Yrl,
            Locale::Yue => Language::Yue,
            Locale::Zza => Language::Zza,
            Locale::Cmn => Language::Cmn,
        }
    }

    /// The locale that names a language: its ISO 639-3 form.
    pub fn from_language(l: Language) -> (r: Locale)
        ensures
            r == Locale::of_language(l),
    {
        match l {
            Language::Zho => Locale::Zho,
            Language::Epo => Locale::Epo,
            Language::Eng => Locale::Eng,
            Language::Rus => Locale::Rus,
            Language::Cmn => Locale::Cmn,
            Language::Spa => Locale::Spa,
            Language::Por => Locale::Por,
            Language::Ita => Locale::Ita,
            Language::Ben => Locale::Ben,
            Language::Fra => Locale::Fra,
            Language::Deu => Locale::Deu,
            Language::Ukr => Locale::Ukr,
            Language::Kat => Locale::Kat,
            Language::Ara => Locale::Ara,
            Language::Hin => Locale::Hin,
            Language::Jpn => Locale::Jpn,
            Language::Heb => Locale::Heb,
            Language::Yid => Locale::Yid,
            Language::Pol => Locale::Pol,
            Language::Amh => Locale::Amh,
            Language::Jav => Locale::Jav,
            Language::Kor => Locale::Kor,
            Language::Nob => Locale::Nob,
            Language::Dan => Locale::Dan,
            Language::Swe => Locale::Swe,
            Language::Fin => Locale::Fin,
            Language::Tur => Locale::Tur,
            Language::Nld => Locale::Nld,
            Language::Hun => Locale::Hun,
            Language::Ces => Locale::Ces,
            Language::Ell => Locale::Ell,
            Language::Bul => Locale::Bul,
            Language::Bel => Locale::Bel,
            Language::Mar => Locale::Mar,
            Language::Kan => Locale::Kan,
            Language::Ron => Locale::Ron,
            Language::Slv => Locale::Slv,
            Language::Hrv => Locale::Hrv,
            Language::Srp => Locale::Srp,
            Language::Mkd => Locale::Mkd,
            Language::Lit => Locale::Lit,
            Language::Lav => Locale::Lav,
            Language::Est => Locale::Est,
            Language::Tam => Locale::Tam,
            Language::Vie => Locale::Vie,
            Language::Urd => Locale::Urd,
            Language::Tha => Locale::Tha,
            Language::Guj => Locale::Guj,
            Language::Uzb => Locale::Uzb,
            Language::Pan => Locale::Pan,
            Language::Aze => Locale::Aze,
            Language::Ind => Locale::Ind,
            Language::Tel => Locale::Tel,
            Language::Pes => Locale::Pes,
            Language::Mal => Locale::Mal,
            Language::Ori => Locale::Ori,
            Language::Mya => Locale::Mya,
            Language::Nep => Locale::Nep,
            Language::Sin => Locale::Sin,
            Language::Khm => Locale::Khm,
            Language::Tuk => Locale::Tuk,
            Language::Aka => Locale::Aka,
            Language::Zul => Locale::Zul,
            Language::Sna => Locale::Sna,
            Language::Afr => Locale::Afr,
            Language::Lat => Locale::Lat,
            Language::Slk => Locale::Slk,
            Language::Cat => Locale::Cat,
            Language::Tgl => Locale::Tgl,
            Language::Hye => Locale::Hye,
            Language::Cym => Locale::Cym,
            Language::Kaz => Locale::Kaz,
            Language::Abk => Locale::Abk,
            Language::Bam => Locale::Bam,
            Language::Bre => Locale::Bre,
            Language::Chu => Locale::Chu,
            Language::Eus => Locale::Eus,
            Language::Fao => Locale::Fao,
            Language::Gla => Locale::Gla,
            Language::Gle => Locale::Gle,
            Language::Glg => Locale::Glg,
            Language::Glv => Locale::Glv,
            Language::Hat => Locale::Hat,
            Language::Hau => Locale::Hau,
            Language::Isl => Locale::Isl,
            Language::Kir => Locale::Kir,
            Language::Nor => Locale::Nor,
            Language::Oci => Locale::Oci,
            Language::San => Locale::San,
            Language::Sme => Locale::Sme,
            Language::Snd => Locale::Snd,
            Language::Sqi => Locale::Sqi,
            Language::Tat => Locale::Tat,
            Language::Uig => Locale::Uig,
            Language::Wol => Locale::Wol,
            Language::Yor => Locale::Yor,
            Language::Abq => Locale::Abq,
            Language::Aii => Locale::Aii,
            Language::Ajp => Locale::Ajp,
            Language::Akk => Locale::Akk,
            Language::Aln => Locale::Aln,
            Language::Apu => Locale::Apu,
            Language::Aqz => Locale::Aqz,
            Language::Arb => Locale::Arb,
            Language::Arh => Locale::Arh,
            Language::Arr => Locale::Arr,
            Language::Axm => Locale::Axm,
            Language::Azz => Locale::Azz,
            Language::Bho => Locale::Bho,
            Language::Bor => Locale::Bor,
            Language::Brh => Locale::Brh,
            Language::Bxr => Locale::Bxr,
            Language::Ceb => Locale::Ceb,
            Language::Cop => Locale::Cop,
            Language::Cpg => Locale::Cpg,
            Language::Ctn => Locale::Ctn,
            Language::Egy => Locale::Egy,
            Language::Eme => Locale::Eme,
            Language::Ess => Locale::Ess,
            Language::Frm => Locale::Frm,
            Language::Fro => Locale::Fro,
            Language::Got => Locale::Got,
            Language::Grc => Locale::Grc,
            Language::Gub => Locale::Gub,
            Language::Gun => Locale::Gun,
            Language::Gwi => Locale::Gwi,
            Language::Gya => Locale::Gya,
            Language::Hbo => Locale::Hbo,
            Language::Hit => Locale::Hit,
            Language::Hsb => Locale::Hsb,
            Language::Hyw => Locale::Hyw,
            Language::Kbc => Locale::Kbc,
            Language::Kmr => Locale::Kmr,
            Language::Koi => Locale::Koi,
            Language::Kpv => Locale::Kpv,
            Language::Krl => Locale::Krl,
            Language::Lij => Locale::Lij,
            Language::Lzh => Locale::Lzh,
            Language::Mdf => Locale::Mdf,
            Language::Myu => Locale::Myu,
            Language::Myv => Locale::Myv,
            Language::Naq => Locale::Naq,
            Language::Nds => Locale::Nds,
            Language::Nhi => Locale::Nhi,
            Language::Nmf => Locale::Nmf,
            Language::Oge => Locale::Oge,
            Language::Olo => Locale::Olo,
            Language::Orv => Locale::Orv,
            Language::Ota => Locale::Ota,
            Language::Pay => Locale::Pay,
            Language::Pcm => Locale::Pcm,
            Language::Pro => Locale::Pro,
            Language::Pst => Locale::Pst,
            Language::Qaf => Locale::Qaf,
            Language::Qpm => Locale::Qpm,
            Language::Qtd => Locale::Qtd,
            Language::Qti => Locale::Qti,
            Language::Quc => Locale::Quc,
            Language::Ruc => Locale::Ruc,
            Language::Sab => Locale::Sab,
            Language::Sah => Locale::Sah,
            Language::Say => Locale::Say,
            Language::Scn => Locale::Scn,
            Language::Sga => Locale::Sga,
            Language::Sjo => Locale::Sjo,
            Language::Sms => Locale::Sms,
            Language::Ssp => Locale::Ssp,
            Language::Tpn => Locale::Tpn,
            Language::Urb => Locale::Urb,
            Language::Vep => Locale::Vep,
            Language::Wbp => Locale::Wbp,
            Language::Wuu => Locale::Wuu,
            Language::Xav => Locale::Xav,
            Language::Xcl => Locale::Xcl,
            Language::Xnr => Locale::Xnr,
            Language::Xpg => Locale::Xpg,
            Language::Xum => Locale::Xum,
            Language::Yrk => Locale::Yrk,
            Language::Yrl => Locale::Yrl,
            Language::Yue => Locale::Yue,
            Language::Zza => Locale::Zza,
        }
    }
    /// The first locale, in the order of the table, whose code is `code`, if any.
    pub fn from_code(code: &str) -> (r: Option<Locale>)
        ensures
            r == locale_with_code(code@),
            match r {
                Some(l) => l.locale_code() == code@,
                None => forall|l: Locale| #[trigger] l.locale_code() != code@,
            },
    {
        let wanted = chars_of(code);
        let mut n: u16 = 0;
        while n < LOCALE_COUNT
            invariant
                wanted@ == code@,
                n <= LOCALE_COUNT,
                forall|l: Locale| l.position() < n ==> #[trigger] l.locale_code() != code@,
                locale_with_code(code@) == first_locale_with_code(code@, n as nat),
            decreases LOCALE_COUNT - n,
        {
            let l = Locale::by_rank(n);
            if compare_text(&l.code_chars(), &wanted) == Comparison::Same {
                return Some(l);
            }
            proof {
                assert forall|m: Locale| m.position() < n + 1 implies #[trigger] m.locale_code() != code@ by {
                    if m.position() == n {
                        m.lemma_position_injective(l);
                    }
                }
            }
            n = n + 1;
        }
        proof {
            assert forall|m: Locale| #[trigger] m.locale_code() != code@ by {
                m.lemma_position();
            }
        }
        None
    }

    /// Reads a locale from its code; an unknown code is an error that names it.
    pub fn parse(s: &str) -> (r: Result<Locale, LocaleFormatError>)
        ensures
            match r {
                Ok(l) => locale_with_code(s@) == Some(l) && l.locale_code() == s@,
                Err(e) => locale_with_code(s@) is None && (forall|l: Locale| #[trigger] l.locale_code()
                    != s@) && e.invalid_locale@ == s@,
            },
    {
        match Locale::from_code(s) {
            Some(l) => Ok(l),
            None => Err(LocaleFormatError { invalid_locale: s.to_owned() }),
        }
    }

    /// The codes of all locales, in the order of the table.
    pub fn all_codes() -> (v: Vec<String>)
        ensures
            v@.map_values(|c: String| c@) == all_locale_codes(),
    {
        let mut v: Vec<String> = Vec::new();
        let mut n: u16 = 0;
        while n < LOCALE_COUNT
            invariant
                n <= LOCALE_COUNT,
                v@.len() == n,
                forall|i: int| 0 <= i < n ==> (#[trigger] v@[i])@ == Locale::at_position(i as nat).locale_code(),
            decreases LOCALE_COUNT - n,
        {
            v.push(string_from_chars(&Locale::by_rank(n).code_chars()));
            n = n + 1;
        }
        assert(v@.map_values(|c: String| c@) =~= all_locale_codes());
        v
    }
}

/// The first locale at or after place `n` whose code is `code`.
pub open spec fn first_locale_with_code(code: Seq<char>, n: nat) -> Option<Locale>
    decreases LOCALE_COUNT - n,
{
    if n >= LOCALE_COUNT {
        None
    } else if Locale::at_position(n).locale_code() == code {
        Some(Locale::at_position(n))
    } else {
        first_locale_with_code(code, n + 1)
    }
}

/// The first locale, in the order of the table, whose code is `code`.
pub open spec fn locale_with_code(code: Seq<char>) -> Option<Locale> {
    first_locale_with_code(code, 0)
}

/// The codes of all locales, in the order of the table.
pub open spec fn all_locale_codes() -> Seq<Seq<char>> {
    Seq::new(LOCALE_COUNT as nat, |i: int| Locale::at_position(i as nat).locale_code())
}

impl From<Language> for Locale {
    fn from(other: Language) -> (r: Locale) {
        Locale::from_language(other)
    }
}

impl vstd::std_specs::convert::FromSpecImpl<Language> for Locale {
    open spec fn obeys_from_spec() -> bool {
        true
    }

    open spec fn from_spec(v: Language) -> Locale {
        Locale::of_language(v)
    }
}

impl From<Locale> for Language {
    fn from(other: Locale) -> (r: Language) {
        other.to_language()
    }
}

impl vstd::std_specs::convert::FromSpecImpl<Locale> for Language {
    open spec fn obeys_from_spec() -> bool {
        true
    }

    open spec fn from_spec(v: Locale) -> Language {
        v.language()
    }
}

impl std::str::FromStr for Locale {
    type Err = LocaleFormatError;

    /// Reads a locale from its code, as `Locale::parse` does.
    fn from_str(s: &str) -> (r: Result<Locale, LocaleFormatError>)
        ensures
            match r {
                Ok(l) => locale_with_code(s@) == Some(l) && l.locale_code() == s@,
                Err(e) => locale_with_code(s@) is None && (forall|l: Locale| #[trigger] l.locale_code()
                    != s@) && e.invalid_locale@ == s@,
            },
    {
        Locale::parse(s)
    }
}

/// A code that names no locale.
#[derive(Debug)]
pub struct LocaleFormatError {
    pub invalid_locale: String,
}

/// The text of the error for `invalid`, listing the codes `expected`.
pub open spec fn format_error_text(invalid: Seq<char>, expected: Seq<Seq<char>>) -> Seq<char> {
    "Unsupported locale `"@ + invalid + "`, expected one of "@ + joined(expected, ", "@)
}

impl LocaleFormatError {
    /// The error as it is shown: the code, then every valid code, shorter
    /// codes first and alphabetically among codes of one length.
    pub fn message(&self) -> (m: String)
        ensures
            exists|listed: Seq<Seq<char>>|
                listed.to_multiset() == all_locale_codes().to_multiset() && listed_in_order(listed)
                    && m@ == format_error_text(self.invalid_locale@, listed),
    {
        let owned = Locale::all_codes();
        let mut codes: Vec<&str> = Vec::new();
        let mut k: usize = 0;
        while k < owned.len()
            invariant
                k <= owned@.len(),
                codes@.len() == k,
                forall|j: int| 0 <= j < k ==> (#[trigger] codes@[j])@ == owned@[j]@,
            decreases owned@.len() - k,
        {
            codes.push(owned[k].as_str());
            k = k + 1;
        }
        assert(codes@.map_values(|c: &str| c@) =~= owned@.map_values(|c: String| c@));
        sort_codes(&mut codes);
        let ghost listed = codes@.map_values(|c: &str| c@);
        let mut out: Vec<char> = Vec::new();
        push_text(&mut out, "Unsupported locale `");
        push_text(&mut out, self.invalid_locale.as_str());
        push_text(&mut out, "`, expected one of ");
        let ghost start = out@;
        let mut i: usize = 0;
        while i < codes.len()
            invariant
                listed == codes@.map_values(|c: &str| c@),
                i <= codes@.len(),
                out@ == start + joined(listed.take(i as int), ", "@),
            decreases codes@.len() - i,
        {
            if i > 0 {
                push_text(&mut out, ", ");
            }
            push_text(&mut out, codes[i]);
            proof {
                let t = listed.take(i + 1);
                assert(t.drop_last() =~= listed.take(i as int));
                if i == 0 {
                    assert(t.len() == 1);
                }
            }
            i = i + 1;
        }
        assert(listed.take(codes@.len() as int) =~= listed);
        string_from_chars(&out)
    }
}

/// Patterns of attribute names: `*` matches any run of characters.
#[derive(Debug, Clone, PartialEq, Eq)]
pub struct AttributePatterns {
    pub patterns: Vec<String>,
}

/// A rule of an index: the languages of the attributes whose names match.
pub struct LocalizedAttributesRule {
    pub attribute_patterns: AttributePatterns,
    pub locales: Vec<Language>,
}

/// A rule as a user writes it: the locales of the attributes whose names
/// match. For instance `["title_*", "description"]` matches `title_en`,
/// `title_fr` and `description`; locales are written like `["en", "fr"]` or
/// `["jpn", "zho"]`.
#[derive(Debug, Clone, PartialEq, Eq)]
pub struct LocalizedAttributesRuleView {
    pub attribute_patterns: AttributePatterns,
    pub locales: Vec<Locale>,
}

impl LocalizedAttributesRuleView {
    /// The rule as a user writes it: every language by its locale.
    pub fn from_rule(rule: LocalizedAttributesRule) -> (v: LocalizedAttributesRuleView)
        ensures
            v.attribute_patterns == rule.attribute_patterns,
            v.locales@ == rule.locales@.map_values(|l: Language| Locale::of_language(l)),
    {
        let mut locales: Vec<Locale> = Vec::new();
        let mut i: usize = 0;
        while i < rule.locales.len()
            invariant
                i <= rule.locales@.len(),
                locales@ == rule.locales@.take(i as int).map_values(|l: Language| Locale::of_language(l)),
            decreases rule.locales@.len() - i,
        {
            locales.push(Locale::from_language(rule.locales[i]));
            assert(rule.locales@.take(i + 1).drop_last() =~= rule.locales@.take(i as int));
            assert(locales@ =~= rule.locales@.take(i + 1).map_values(|l: Language| Locale::of_language(l)));
            i = i + 1;
        }
        assert(rule.locales@.take(rule.locales@.len() as int) =~= rule.locales@);
        LocalizedAttributesRuleView { attribute_patterns: rule.attribute_patterns, locales }
    }
}

impl LocalizedAttributesRule {
    /// The rule of an index: every locale by its language.
    pub fn from_view(view: LocalizedAttributesRuleView) -> (r: LocalizedAttributesRule)
        ensures
            r.attribute_patterns == view.attribute_patterns,
            r.locales@ == view.locales@.map_values(|l: Locale| l.language()),
    {
        let mut locales: Vec<Language> = Vec::new();
        let mut i: usize = 0;
        while i < view.locales.len()
            invariant
                i <= view.locales@.len(),
                locales@ == view.locales@.take(i as int).map_values(|l: Locale| l.language()),
            decreases view.locales@.len() - i,
        {
            locales.push(view.locales[i].to_language());
            assert(view.locales@.take(i + 1).drop_last() =~= view.locales@.take(i as int));
            assert(locales@ =~= view.locales@.take(i + 1).map_values(|l: Locale| l.language()));
            i = i + 1;
        }
        assert(view.locales@.take(view.locales@.len() as int) =~= view.locales@);
        LocalizedAttributesRule { attribute_patterns: view.attribute_patterns, locales }
    }
}

impl From<LocalizedAttributesRule> for LocalizedAttributesRuleView {
    fn from(rule: LocalizedAttributesRule) -> (v: LocalizedAttributesRuleView)
        ensures
            v.attribute_patterns == rule.attribute_patterns,
            v.locales@ == rule.locales@.map_values(|l: Language| Locale::of_language(l)),
    {
        LocalizedAttributesRuleView::from_rule(rule)
    }
}

impl vstd::std_specs::convert::FromSpecImpl<LocalizedAttributesRule> for LocalizedAttributesRuleView {
    open spec fn obeys_from_spec() -> bool {
        false
    }

    open spec fn from_spec(v: LocalizedAttributesRule) -> LocalizedAttributesRuleView {
        arbitrary()
    }
}

impl From<LocalizedAttributesRuleView> for LocalizedAttributesRule {
    fn from(view: LocalizedAttributesRuleView) -> (r: LocalizedAttributesRule)
        ensures
            r.attribute_patterns == view.attribute_patterns,
            r.locales@ == view.locales@.map_values(|l: Locale| l.language()),
    {
        LocalizedAttributesRule::from_view(view)
    }
}

impl vstd::std_specs::convert::FromSpecImpl<LocalizedAttributesRuleView> for LocalizedAttributesRule {
    open spec fn obeys_from_spec() -> bool {
        false
    }

    open spec fn from_spec(v: LocalizedAttributesRuleView) -> LocalizedAttributesRule {
        arbitrary()
    }
}

/// A language survives the trip through its locale.
#[verifier::spinoff_prover]
#[verifier::rlimit(100)]
pub proof fn lemma_language_round_trip(l: Language)
    ensures
        Locale::of_language(l).language() == l,
{
    match l {
        Language::Zho => {},
        Language::Epo => {},
        Language::Eng => {},
        Language::Rus => {},
        Language::Cmn => {},
        Language::Spa => {},
        Language::Por => {},
        Language::Ita => {},
        Language::Ben => {},
        Language::Fra => {},
        Language::Deu => {},
        Language::Ukr => {},
        Language::Kat => {},
        Language::Ara => {},
        Language::Hin => {},
        Language::Jpn => {},
        Language::Heb => {},
        Language::Yid => {},
        Language::Pol => {},
        Language::Amh => {},
        Language::Jav => {},
        Language::Kor => {},
        Language::Nob => {},
        Language::Dan => {},
        Language::Swe => {},
        Language::Fin => {},
        Language::Tur => {},
        Language::Nld => {},
        Language::Hun => {},
        Language::Ces => {},
        Language::Ell => {},
        Language::Bul => {},
        Language::Bel => {},
        Language::Mar => {},
        Language::Kan => {},
        Language::Ron => {},
        Language::Slv => {},
        Language::Hrv => {},
        Language::Srp => {},
        Language::Mkd => {},
        Language::Lit => {},
        Language::Lav => {},
        Language::Est => {},
        Language::Tam => {},
        Language::Vie => {},
        Language::Urd => {},
        Language::Tha => {},
        Language::Guj => {},
        Language::Uzb => {},
        Language::Pan => {},
        Language::Aze => {},
        Language::Ind => {},
        Language::Tel => {},
        Language::Pes => {},
        Language::Mal => {},
        Language::Ori => {},
        Language::Mya => {},
        Language::Nep => {},
        Language::Sin => {},
        Language::Khm => {},
        Language::Tuk => {},
        Language::Aka => {},
        Language::Zul => {},
        Language::Sna => {},
        Language::Afr => {},
        Language::Lat => {},
        Language::Slk => {},
        Language::Cat => {},
        Language::Tgl => {},
        Language::Hye => {},
        Language::Cym => {},
        Language::Kaz => {},
        Language::Abk => {},
        Language::Bam => {},
        Language::Bre => {},
        Language::Chu => {},
        Language::Eus => {},
        Language::Fao => {},
        Language::Gla => {},
        Language::Gle => {},
        Language::Glg => {},
        Language::Glv => {},
        Language::Hat => {},
        Language::Hau => {},
        Language::Isl => {},
        Language::Kir => {},
        Language::Nor => {},
        Language::Oci => {},
        Language::San => {},
        Language::Sme => {},
        Language::Snd => {},
        Language::Sqi => {},
        Language::Tat => {},
        Language::Uig => {},
        Language::Wol => {},
        Language::Yor => {},
        Language::Abq => {},
        Language::Aii => {},
        Language::Ajp => {},
        Language::Akk => {},
        Language::Aln => {},
        Language::Apu => {},
        Language::Aqz => {},
        Language::Arb => {},
        Language::Arh => {},
        Language::Arr => {},
        Language::Axm => {},
        Language::Azz => {},
        Language::Bho => {},
        Language::Bor => {},
        Language::Brh => {},
        Language::Bxr => {},
        Language::Ceb => {},
        Language::Cop => {},
        Language::Cpg => {},
        Language::Ctn => {},
        Language::Egy => {},
        Language::Eme => {},
        Language::Ess => {},
        Language::Frm => {},
        Language::Fro => {},
        Language::Got => {},
        Language::Grc => {},
        Language::Gub => {},
        Language::Gun => {},
        Language::Gwi => {},
        Language::Gya => {},
        Language::Hbo => {},
        Language::Hit => {},
        Language::Hsb => {},
        Language::Hyw => {},
        Language::Kbc => {},
        Language::Kmr => {},
        Language::Koi => {},
        Language::Kpv => {},
        Language::Krl => {},
        Language::Lij => {},
        Language::Lzh => {},
        Language::Mdf => {},
        Language::Myu => {},
        Language::Myv => {},
        Language::Naq => {},
        Language::Nds => {},
        Language::Nhi => {},
        Language::Nmf => {},
        Language::Oge => {},
        Language::Olo => {},
        Language::Orv => {},
        Language::Ota => {},
        Language::Pay => {},
        Language::Pcm => {},
        Language::Pro => {},
        Language::Pst => {},
        Language::Qaf => {},
        Language::Qpm => {},
        Language::Qtd => {},
        Language::Qti => {},
        Language::Quc => {},
        Language::Ruc => {},
        Language::Sab => {},
        Language::Sah => {},
        Language::Say => {},
        Language::Scn => {},
        Language::Sga => {},
        Language::Sjo => {},
        Language::Sms => {},
        Language::Ssp => {},
        Language::Tpn => {},
        Language::Urb => {},
        Language::Vep => {},
        Language::Wbp => {},
        Language::Wuu => {},
        Language::Xav => {},
        Language::Xcl => {},
        Language::Xnr => {},
        Language::Xpg => {},
        Language::Xum => {},
        Language::Yrk => {},
        Language::Yrl => {},
        Language::Yue => {},
        Language::Zza => {},
    }
}

/// The languages of a rule come back unchanged, in order, from the rule as a
/// user writes it.
pub proof fn lemma_rule_round_trip(locales: Seq<Language>)
    ensures
        locales.map_values(|l: Language| Locale::of_language(l)).map_values(|x: Locale| x.language())
            == locales,
{
    let back = locales.map_values(|l: Language| Locale::of_language(l)).map_values(|x: Locale| x.language());
    assert forall|i: int| 0 <= i < locales.len() implies back[i] == locales[i] by {
        lemma_language_round_trip(locales[i]);
    }
    assert(back =~= locales);
}

/// The locale of a language has a three-letter code.
#[verifier::spinoff_prover]
#[verifier::rlimit(100)]
pub proof fn lemma_language_locale_is_three_letter(l: Language)
    ensures
        Locale::of_language(l).locale_code().len() == 3,
{
    match l {
        Language::Zho => {},
        Language::Epo => {},
        Language::Eng => {},
        Language::Rus => {},
        Language::Cmn => {},
        Language::Spa => {},
        Language::Por => {},
        Language::Ita => {},
        Language::Ben => {},
        Language::Fra => {},
        Language::Deu => {},
        Language::Ukr => {},
        Language::Kat => {},
        Language::Ara => {},
        Language::Hin => {},
        Language::Jpn => {},
        Language::Heb => {},
        Language::Yid => {},
        Language::Pol => {},
        Language::Amh => {},
        Language::Jav => {},
        Language::Kor => {},
        Language::Nob => {},
        Language::Dan => {},
        Language::Swe => {},
        Language::Fin => {},
        Language::Tur => {},
        Language::Nld => {},
        Language::Hun => {},
        Language::Ces => {},
        Language::Ell => {},
        Language::Bul => {},
        Language::Bel => {},
        Language::Mar => {},
        Language::Kan => {},
        Language::Ron => {},
        Language::Slv => {},
        Language::Hrv => {},
        Language::Srp => {},
        Language::Mkd => {},
        Language::Lit => {},
        Language::Lav => {},
        Language::Est => {},
        Language::Tam => {},
        Language::Vie => {},
        Language::Urd => {},
        Language::Tha => {},
        Language::Guj => {},
        Language::Uzb => {},
        Language::Pan => {},
        Language::Aze => {},
        Language::Ind => {},
        Language::Tel => {},
        Language::Pes => {},
        Language::Mal => {},
        Language::Ori => {},
        Language::Mya => {},
        Language::Nep => {},
        Language::Sin => {},
        Language::Khm => {},
        Language::Tuk => {},
        Language::Aka => {},
        Language::Zul => {},
        Language::Sna => {},
        Language::Afr => {},
        Language::Lat => {},
        Language::Slk => {},
        Language::Cat => {},
        Language::Tgl => {},
        Language::Hye => {},
        Language::Cym => {},
        Language::Kaz => {},
        Language::Abk => {},
        Language::Bam => {},
        Language::Bre => {},
        Language::Chu => {},
        Language::Eus => {},
        Language::Fao => {},
        Language::Gla => {},
        Language::Gle => {},
        Language::Glg => {},
        Language::Glv => {},
        Language::Hat => {},
        Language::Hau => {},
        Language::Isl => {},
        Language::Kir => {},
        Language::Nor => {},
        Language::Oci => {},
        Language::San => {},
        Language::Sme => {},
        Language::Snd => {},
        Language::Sqi => {},
        Language::Tat => {},
        Language::Uig => {},
        Language::Wol => {},
        Language::Yor => {},
        Language::Abq => {},
        Language::Aii => {},
        Language::Ajp => {},
        Language::Akk => {},
        Language::Aln => {},
        Language::Apu => {},
        Language::Aqz => {},
        Language::Arb => {},
        Language::Arh => {},
        Language::Arr => {},
        Language::Axm => {},
        Language::Azz => {},
        Language::Bho => {},
        Language::Bor => {},
        Language::Brh => {},
        Language::Bxr => {},
        Language::Ceb => {},
        Language::Cop => {},
        Language::Cpg => {},
        Language::Ctn => {},
        Language::Egy => {},
        Language::Eme => {},
        Language::Ess => {},
        Language::Frm => {},
        Language::Fro => {},
        Language::Got => {},
        Language::Grc => {},
        Language::Gub => {},
        Language::Gun => {},
        Language::Gwi => {},
        Language::Gya => {},
        Language::Hbo => {},
        Language::Hit => {},
        Language::Hsb => {},
        Language::Hyw => {},
        Language::Kbc => {},
        Language::Kmr => {},
        Language::Koi => {},
        Language::Kpv => {},
        Language::Krl => {},
        Language::Lij => {},
        Language::Lzh => {},
        Language::Mdf => {},
        Language::Myu => {},
        Language::Myv => {},
        Language::Naq => {},
        Language::Nds => {},
        Language::Nhi => {},
        Language::Nmf => {},
        Language::Oge => {},
        Language::Olo => {},
        Language::Orv => {},
        Language::Ota => {},
        Language::Pay => {},
        Language::Pcm => {},
        Language::Pro => {},
        Language::Pst => {},
        Language::Qaf => {},
        Language::Qpm => {},
        Language::Qtd => {},
        Language::Qti => {},
        Language::Quc => {},
        Language::Ruc => {},
        Language::Sab => {},
        Language::Sah => {},
        Language::Say => {},
        Language::Scn => {},
        Language::Sga => {},
        Language::Sjo => {},
        Language::Sms => {},
        Language::Ssp => {},
        Language::Tpn => {},
        Language::Urb => {},
        Language::Vep => {},
        Language::Wbp => {},
        Language::Wuu => {},
        Language::Xav => {},
        Language::Xcl => {},
        Language::Xnr => {},
        Language::Xpg => {},
        Language::Xum => {},
        Language::Yrk => {},
        Language::Yrl => {},
        Language::Yue => {},
        Language::Zza => {},
    }
}

/// A locale with a three-letter code is the locale of its language.
#[verifier::spinoff_prover]
#[verifier::rlimit(100)]
pub proof fn lemma_three_letter_locale_names_its_language(loc: Locale)
    ensures
        loc.locale_code().len() == 3 ==> Locale::of_language(loc.language()) == loc,
{
    match loc {
        Locale::Af => {},
        Locale::Ak => {},
        Locale::Am => {},
        Locale::Ar => {},
        Locale::Az => {},
        Locale::Be => {},
        Locale::Bn => {},
        Locale::Bg => {},
        Locale::Ca => {},
        Locale::Cs => {},
        Locale::Cy => {},
        Locale::Da => {},
        Locale::De => {},
        Locale::El => {},
        Locale::En => {},
        Locale::Eo => {},
        Locale::Et => {},
        Locale::Fi => {},
        Locale::Fr => {},
        Locale::Gu => {},
        Locale::He => {},
        Locale::Hi => {},
        Locale::Hr => {},
        Locale::Hu => {},
        Locale::Hy => {},
        Locale::Id => {},
        Locale::It => {},
        Locale::Jv => {},
        Locale::Ja => {},
        Locale::Kn => {},
        Locale::Ka => {},
        Locale::Kk => {},
        Locale::Km => {},
        Locale::Ko => {},
        Locale::La => {},
        Locale::Lv => {},
        Locale::Lt => {},
        Locale::Ml => {},
        Locale::Mr => {},
        Locale::Mk => {},
        Locale::My => {},
        Locale::Ne => {},
        Locale::Nl => {},
        Locale::Nb => {},
        Locale::Or => {},
        Locale::Pa => {},
        Locale::Fa => {},
        Locale::Pl => {},
        Locale::Pt => {},
        Locale::Ro => {},
        Locale::Ru => {},
        Locale::Si => {},
        Locale::Sk => {},
        Locale::Sl => {},
        Locale::Sn => {},
        Locale::Es => {},
        Locale::Sr => {},
        Locale::Sv => {},
        Locale::Ta => {},
        Locale::Te => {},
        Locale::Tl => {},
        Locale::Th => {},
        Locale::Tk => {},
        Locale::Tr => {},
        Locale::Uk => {},
        Locale::Ur => {},
        Locale::Uz => {},
        Locale::Vi => {},
        Locale::Yi => {},
        Locale::Zh => {},
        Locale::Zu => {},
        Locale::Ab => {},
        Locale::Bm => {},
        Locale::Br => {},
        Locale::Cu => {},
        Locale::Eu => {},
        Locale::Fo => {},
        Locale::Gd => {},
        Locale::Ga => {},
        Locale::Gl => {},
        Locale::Gv => {},
        Locale::Ht => {},
        Locale::Ha => {},
        Locale::Is => {},
        Locale::Ky => {},
        Locale::No => {},
        Locale::Oc => {},
        Locale::Sa => {},
        Locale::Se => {},
        Locale::Sd => {},
        Locale::Sq => {},
        Locale::Tt => {},
        Locale::Ug => {},
        Locale::Wo => {},
        Locale::Yo => {},
        Locale::Afr => {},
        Locale::Aka => {},
        Locale::Amh => {},
        Locale::Ara => {},
        Locale::Aze => {},
        Locale::Bel => {},
        Locale::Ben => {},
        Locale::Bul => {},
        Locale::Cat => {},
        Locale::Ces => {},
        Locale::Cym => {},
        Locale::Dan => {},
        Locale::Deu => {},
        Locale::Ell => {},
        Locale::Eng => {},
        Locale::Epo => {},
        Locale::Est => {},
        Locale::Fin => {},
        Locale::Fra => {},
        Locale::Guj => {},
        Locale::Heb => {},
        Locale::Hin => {},
        Locale::Hrv => {},
        Locale::Hun => {},
        Locale::Hye => {},
        Locale::Ind => {},
        Locale::Ita => {},
        Locale::Jav => {},
        Locale::Jpn => {},
        Locale::Kan => {},
        Locale::Kat => {},
        Locale::Kaz => {},
        Locale::Khm => {},
        Locale::Kor => {},
        Locale::Lat => {},
        Locale::Lav => {},
        Locale::Lit => {},
        Locale::Mal => {},
        Locale::Mar => {},
        Locale::Mkd => {},
        Locale::Mya => {},
        Locale::Nep => {},
        Locale::Nld => {},
        Locale::Nob => {},
        Locale::Ori => {},
        Locale::Pan => {},
        Locale::Pes => {},
        Locale::Pol => {},
        Locale::Por => {},
        Locale::Ron => {},
        Locale::Rus => {},
        Locale::Sin => {},
        Locale::Slk => {},
        Locale::Slv => {},
        Locale::Sna => {},
        Locale::Spa => {},
        Locale::Srp => {},
        Locale::Swe => {},
        Locale::Tam => {},
        Locale::Tel => {},
        Locale::Tgl => {},
        Locale::Tha => {},
        Locale::Tuk => {},
        Locale::Tur => {},
        Locale::Ukr => {},
        Locale::Urd => {},
        Locale::Uzb => {},
        Locale::Vie => {},
        Locale::Yid => {},
        Locale::Zho => {},
        Locale::Zul => {},
        Locale::Abk => {},
        Locale::Bam => {},
        Locale::Bre => {},
        Locale::Chu => {},
        Locale::Eus => {},
        Locale::Fao => {},
        Locale::Gla => {},
        Locale::Gle => {},
        Locale::Glg => {},
        Locale::Glv => {},
        Locale::Hat => {},
        Locale::Hau => {},
        Locale::Isl => {},
        Locale::Kir => {},
        Locale::Nor => {},
        Locale::Oci => {},
        Locale::San => {},
        Locale::Sme => {},
        Locale::Snd => {},
        Locale::Sqi => {},
        Locale::Tat => {},
        Locale::Uig => {},
        Locale::Wol => {},
        Locale::Yor => {},
        Locale::Abq => {},
        Locale::Aii => {},
        Locale::Ajp => {},
        Locale::Akk => {},
        Locale::Aln => {},
        Locale::Apu => {},
        Locale::Aqz => {},
        Locale::Arb => {},
        Locale::Arh => {},
        Locale::Arr => {},
        Locale::Axm => {},
        Locale::Azz => {},
        Locale::Bho => {},
        Locale::Bor => {},
        Locale::Brh => {},
        Locale::Bxr => {},
        Locale::Ceb => {},
        Locale::Cop => {},
        Locale::Cpg => {},
        Locale::Ctn => {},
        Locale::Egy => {},
        Locale::Eme => {},
        Locale::Ess => {},
        Locale::Frm => {},
        Locale::Fro => {},
        Locale::Got => {},
        Locale::Grc => {},
        Locale::Gub => {},
        Locale::Gun => {},
        Locale::Gwi => {},
        Locale::Gya => {},
        Locale::Hbo => {},
        Locale::Hit => {},
        Locale::Hsb => {},
        Locale::Hyw => {},
        Locale::Kbc => {},
        Locale::Kmr => {},
        Locale::Koi => {},
        Locale::Kpv => {},
        Locale::Krl => {},
        Locale::Lij => {},
        Locale::Lzh => {},
        Locale::Mdf => {},
        Locale::Myu => {},
        Locale::Myv => {},
        Locale::Naq => {},
        Locale::Nds => {},
        Locale::Nhi => {},
        Locale::Nmf => {},
        Locale::Oge => {},
        Locale::Olo => {},
        Locale::Orv => {},
        Locale::Ota => {},
        Locale::Pay => {},
        Locale::Pcm => {},
        Locale::Pro => {},
        Locale::Pst => {},
        Locale::Qaf => {},
        Locale::Qpm => {},
        Locale::Qtd => {},
        Locale::Qti => {},
        Locale::Quc => {},
        Locale::Ruc => {},
        Locale::Sab => {},
        Locale::Sah => {},
        Locale::Say => {},
        Locale::Scn => {},
        Locale::Sga => {},
        Locale::Sjo => {},
        Locale::Sms => {},
        Locale::Ssp => {},
        Locale::Tpn => {},
        Locale::Urb => {},
        Locale::Vep => {},
        Locale::Wbp => {},
        Locale::Wuu => {},
        Locale::Xav => {},
        Locale::Xcl => {},
        Locale::Xnr => {},
        Locale::Xpg => {},
        Locale::Xum => {},
        Locale::Yrk => {},
        Locale::Yrl => {},
        Locale::Yue => {},
        Locale::Zza => {},
        Locale::Cmn => {},
    }
}

/// The locales of a rule as a user writes it come back from the rule in
/// order, each in its three-letter form: the same language under a
/// three-letter code, and a three-letter locale unchanged.
pub proof fn lemma_view_round_trip(locales: Seq<Locale>)
    ensures
        ({
            let back = locales.map_values(|x: Locale| x.language()).map_values(|l: Language| Locale::of_language(l));
            &&& back.len() == locales.len()
            &&& forall|i: int| 0 <= i < locales.len() ==> {
                &&& (#[trigger] back[i]).language() == locales[i].language()
                &&& back[i].locale_code().len() == 3
                &&& locales[i].locale_code().len() == 3 ==> back[i] == locales[i]
            }
        }),
{
    let back = locales.map_values(|x: Locale| x.language()).map_values(|l: Language| Locale::of_language(l));
    assert forall|i: int| 0 <= i < locales.len() implies {
        &&& (#[trigger] back[i]).language() == locales[i].language()
        &&& back[i].locale_code().len() == 3
        &&& locales[i].locale_code().len() == 3 ==> back[i] == locales[i]
    } by {
        lemma_language_round_trip(locales[i].language());
        lemma_language_locale_is_three_letter(locales[i].language());
        lemma_three_letter_locale_names_its_language(locales[i]);
    }
}

/// A rule written as a user writes it and read back is the same rule: the
/// same attribute patterns, and the same languages in the same order.
pub proof fn lemma_rule_comes_back(
    rule: LocalizedAttributesRule,
    view: LocalizedAttributesRuleView,
    back: LocalizedAttributesRule,
)
    requires
        view.attribute_patterns == rule.attribute_patterns,
        view.locales@ == rule.locales@.map_values(|l: Language| Locale::of_language(l)),
        back.attribute_patterns == view.attribute_patterns,
        back.locales@ == view.locales@.map_values(|x: Locale| x.language()),
    ensures
        back.attribute_patterns == rule.attribute_patterns,
        back.locales@ == rule.locales@,
{
    lemma_rule_round_trip(rule.locales@);
}

/// A rule as a user writes it, read and written again, keeps its attribute
/// patterns and as many locales, in order: each names the same language, has
/// a three-letter code, and a three-letter locale stays as it was.
pub proof fn lemma_view_comes_back(
    view: LocalizedAttributesRuleView,
    rule: LocalizedAttributesRule,
    back: LocalizedAttributesRuleView,
)
    requires
        rule.attribute_patterns == view.attribute_patterns,
        rule.locales@ == view.locales@.map_values(|x: Locale| x.language()),
        back.attribute_patterns == rule.attribute_patterns,
        back.locales@ == rule.locales@.map_values(|l: Language| Locale::of_language(l)),
    ensures
        back.attribute_patterns == view.attribute_patterns,
        back.locales@.len() == view.locales@.len(),
        forall|i: int| 0 <= i < view.locales@.len() ==> {
            &&& (#[trigger] back.locales@[i]).language() == view.locales@[i].language()
            &&& back.locales@[i].locale_code().len() == 3
            &&& view.locales@[i].locale_code().len() == 3 ==> back.locales@[i] == view.locales@[i]
        },
{
    lemma_view_round_trip(view.locales@);
}

/// The place of a locale in the table is its place in the declaration of
/// `Locale`, the order that its derived `Ord` follows.
pub proof fn lemma_locale_order_is_declaration_order(loc: Locale)
    ensures
        loc.position() == loc as nat,
{
}

/// A two-letter locale names the language of the three-letter locale it pairs
/// with, the one declared `TWO_LETTER_LOCALES` places after it.
#[verifier::spinoff_prover]
#[verifier::rlimit(100)]
pub proof fn lemma_two_letter_locale_is_paired(loc: Locale, paired: Locale)
    requires
        (loc as nat) < TWO_LETTER_LOCALES,
        paired as nat == loc as nat + TWO_LETTER_LOCALES,
    ensures
        loc.language() == paired.language(),
        loc.locale_code().len() == 2,
        paired.locale_code().len() == 3,
{
    lemma_locale_order_is_declaration_order(loc);
    lemma_locale_order_is_declaration_order(paired);
    paired.lemma_position();
    match loc {
        Locale::Af => {},
        Locale::Ak => {},
        Locale::Am => {},
        Locale::Ar => {},
        Locale::Az => {},
        Locale::Be => {},
        Locale::Bn => {},
        Locale::Bg => {},
        Locale::Ca => {},
        Locale::Cs => {},
        Locale::Cy => {},
        Locale::Da => {},
        Locale::De => {},
        Locale::El => {},
        Locale::En => {},
        Locale::Eo => {},
        Locale::Et => {},
        Locale::Fi => {},
        Locale::Fr => {},
        Locale::Gu => {},
        Locale::He => {},
        Locale::Hi => {},
        Locale::Hr => {},
        Locale::Hu => {},
        Locale::Hy => {},
        Locale::Id => {},
        Locale::It => {},
        Locale::Jv => {},
        Locale::Ja => {},
        Locale::Kn => {},
        Locale::Ka => {},
        Locale::Kk => {},
        Locale::Km => {},
        Locale::Ko => {},
        Locale::La => {},
        Locale::Lv => {},
        Locale::Lt => {},
        Locale::Ml => {},
        Locale::Mr => {},
        Locale::Mk => {},
        Locale::My => {},
        Locale::Ne => {},
        Locale::Nl => {},
        Locale::Nb => {},
        Locale::Or => {},
        Locale::Pa => {},
        Locale::Fa => {},
        Locale::Pl => {},
        Locale::Pt => {},
        Locale::Ro => {},
        Locale::Ru => {},
        Locale::Si => {},
        Locale::Sk => {},
        Locale::Sl => {},
        Locale::Sn => {},
        Locale::Es => {},
        Locale::Sr => {},
        Locale::Sv => {},
        Locale::Ta => {},
        Locale::Te => {},
        Locale::Tl => {},
        Locale::Th => {},
        Locale::Tk => {},
        Locale::Tr => {},
        Locale::Uk => {},
        Locale::Ur => {},
        Locale::Uz => {},
        Locale::Vi => {},
        Locale::Yi => {},
        Locale::Zh => {},
        Locale::Zu => {},
        Locale::Ab => {},
        Locale::Bm => {},
        Locale::Br => {},
        Locale::Cu => {},
        Locale::Eu => {},
        Locale::Fo => {},
        Locale::Gd => {},
        Locale::Ga => {},
        Locale::Gl => {},
        Locale::Gv => {},
        Locale::Ht => {},
        Locale::Ha => {},
        Locale::Is => {},
        Locale::Ky => {},
        Locale::No => {},
        Locale::Oc => {},
        Locale::Sa => {},
        Locale::Se => {},
        Locale::Sd => {},
        Locale::Sq => {},
        Locale::Tt => {},
        Locale::Ug => {},
        Locale::Wo => {},
        Locale::Yo => {},
        Locale::Afr => {},
        Locale::Aka => {},
        Locale::Amh => {},
        Locale::Ara => {},
        Locale::Aze => {},
        Locale::Bel => {},
        Locale::Ben => {},
        Locale::Bul => {},
        Locale::Cat => {},
        Locale::Ces => {},
        Locale::Cym => {},
        Locale::Dan => {},
        Locale::Deu => {},
        Locale::Ell => {},
        Locale::Eng => {},
        Locale::Epo => {},
        Locale::Est => {},
        Locale::Fin => {},
        Locale::Fra => {},
        Locale::Guj => {},
        Locale::Heb => {},
        Locale::Hin => {},
        Locale::Hrv => {},
        Locale::Hun => {},
        Locale::Hye => {},
        Locale::Ind => {},
        Locale::Ita => {},
        Locale::Jav => {},
        Locale::Jpn => {},
        Locale::Kan => {},
        Locale::Kat => {},
        Locale::Kaz => {},
        Locale::Khm => {},
        Locale::Kor => {},
        Locale::Lat => {},
        Locale::Lav => {},
        Locale::Lit => {},
        Locale::Mal => {},
        Locale::Mar => {},
        Locale::Mkd => {},
        Locale::Mya => {},
        Locale::Nep => {},
        Locale::Nld => {},
        Locale::Nob => {},
        Locale::Ori => {},
        Locale::Pan => {},
        Locale::Pes => {},
        Locale::Pol => {},
        Locale::Por => {},
        Locale::Ron => {},
        Locale::Rus => {},
        Locale::Sin => {},
        Locale::Slk => {},
        Locale::Slv => {},
        Locale::Sna => {},
        Locale::Spa => {},
        Locale::Srp => {},
        Locale::Swe => {},
        Locale::Tam => {},
        Locale::Tel => {},
        Locale::Tgl => {},
        Locale::Tha => {},
        Locale::Tuk => {},
        Locale::Tur => {},
        Locale::Ukr => {},
        Locale::Urd => {},
        Locale::Uzb => {},
        Locale::Vie => {},
        Locale::Yid => {},
        Locale::Zho => {},
        Locale::Zul => {},
        Locale::Abk => {},
        Locale::Bam => {},
        Locale::Bre => {},
        Locale::Chu => {},
        Locale::Eus => {},
        Locale::Fao => {},
        Locale::Gla => {},
        Locale::Gle => {},
        Locale::Glg => {},
        Locale::Glv => {},
        Locale::Hat => {},
        Locale::Hau => {},
        Locale::Isl => {},
        Locale::Kir => {},
        Locale::Nor => {},
        Locale::Oci => {},
        Locale::San => {},
        Locale::Sme => {},
        Locale::Snd => {},
        Locale::Sqi => {},
        Locale::Tat => {},
        Locale::Uig => {},
        Locale::Wol => {},
        Locale::Yor => {},
        Locale::Abq => {},
        Locale::Aii => {},
        Locale::Ajp => {},
        Locale::Akk => {},
        Locale::Aln => {},
        Locale::Apu => {},
        Locale::Aqz => {},
        Locale::Arb => {},
        Locale::Arh => {},
        Locale::Arr => {},
        Locale::Axm => {},
        Locale::Azz => {},
        Locale::Bho => {},
        Locale::Bor => {},
        Locale::Brh => {},
        Locale::Bxr => {},
        Locale::Ceb => {},
        Locale::Cop => {},
        Locale::Cpg => {},
        Locale::Ctn => {},
        Locale::Egy => {},
        Locale::Eme => {},
        Locale::Ess => {},
        Locale::Frm => {},
        Locale::Fro => {},
        Locale::Got => {},
        Locale::Grc => {},
        Locale::Gub => {},
        Locale::Gun => {},
        Locale::Gwi => {},
        Locale::Gya => {},
        Locale::Hbo => {},
        Locale::Hit => {},
        Locale::Hsb => {},
        Locale::Hyw => {},
        Locale::Kbc => {},
        Locale::Kmr => {},
        Locale::Koi => {},
        Locale::Kpv => {},
        Locale::Krl => {},
        Locale::Lij => {},
        Locale::Lzh => {},
        Locale::Mdf => {},
        Locale::Myu => {},
        Locale::Myv => {},
        Locale::Naq => {},
        Locale::Nds => {},
        Locale::Nhi => {},
        Locale::Nmf => {},
        Locale::Oge => {},
        Locale::Olo => {},
        Locale::Orv => {},
        Locale::Ota => {},
        Locale::Pay => {},
        Locale::Pcm => {},
        Locale::Pro => {},
        Locale::Pst => {},
        Locale::Qaf => {},
        Locale::Qpm => {},
        Locale::Qtd => {},
        Locale::Qti => {},
        Locale::Quc => {},
        Locale::Ruc => {},
        Locale::Sab => {},
        Locale::Sah => {},
        Locale::Say => {},
        Locale::Scn => {},
        Locale::Sga => {},
        Locale::Sjo => {},
        Locale::Sms => {},
        Locale::Ssp => {},
        Locale::Tpn => {},
        Locale::Urb => {},
        Locale::Vep => {},
        Locale::Wbp => {},
        Locale::Wuu => {},
        Locale::Xav => {},
        Locale::Xcl => {},
        Locale::Xnr => {},
        Locale::Xpg => {},
        Locale::Xum => {},
        Locale::Yrk => {},
        Locale::Yrl => {},
        Locale::Yue => {},
        Locale::Zza => {},
        Locale::Cmn => {},
    }
}

/// The code of a two-letter locale is the ISO 639-1 code of its language.
#[verifier::spinoff_prover]
#[verifier::rlimit(100)]
pub proof fn lemma_two_letter_code_is_iso_639_1(loc: Locale)
    ensures
        loc.locale_code().len() == 2 ==> loc.language().iso_639_1() == Some(loc.locale_code()),
{
    match loc {
        Locale::Af => {},
        Locale::Ak => {},
        Locale::Am => {},
        Locale::Ar => {},
        Locale::Az => {},
        Locale::Be => {},
        Locale::Bn => {},
        Locale::Bg => {},
        Locale::Ca => {},
        Locale::Cs => {},
        Locale::Cy => {},
        Locale::Da => {},
        Locale::De => {},
        Locale::El => {},
        Locale::En => {},
        Locale::Eo => {},
        Locale::Et => {},
        Locale::Fi => {},
        Locale::Fr => {},
        Locale::Gu => {},
        Locale::He => {},
        Locale::Hi => {},
        Locale::Hr => {},
        Locale::Hu => {},
        Locale::Hy => {},
        Locale::Id => {},
        Locale::It => {},
        Locale::Jv => {},
        Locale::Ja => {},
        Locale::Kn => {},
        Locale::Ka => {},
        Locale::Kk => {},
        Locale::Km => {},
        Locale::Ko => {},
        Locale::La => {},
        Locale::Lv => {},
        Locale::Lt => {},
        Locale::Ml => {},
        Locale::Mr => {},
        Locale::Mk => {},
        Locale::My => {},
        Locale::Ne => {},
        Locale::Nl => {},
        Locale::Nb => {},
        Locale::Or => {},
        Locale::Pa => {},
        Locale::Fa => {},
        Locale::Pl => {},
        Locale::Pt => {},
        Locale::Ro => {},
        Locale::Ru => {},
        Locale::Si => {},
        Locale::Sk => {},
        Locale::Sl => {},
        Locale::Sn => {},
        Locale::Es => {},
        Locale::Sr => {},
        Locale::Sv => {},
        Locale::Ta => {},
        Locale::Te => {},
        Locale::Tl => {},
        Locale::Th => {},
        Locale::Tk => {},
        Locale::Tr => {},
        Locale::Uk => {},
        Locale::Ur => {},
        Locale::Uz => {},
        Locale::Vi => {},
        Locale::Yi => {},
        Locale::Zh => {},
        Locale::Zu => {},
        Locale::Ab => {},
        Locale::Bm => {},
        Locale::Br => {},
        Locale::Cu => {},
        Locale::Eu => {},
        Locale::Fo => {},
        Locale::Gd => {},
        Locale::Ga => {},
        Locale::Gl => {},
        Locale::Gv => {},
        Locale::Ht => {},
        Locale::Ha => {},
        Locale::Is => {},
        Locale::Ky => {},
        Locale::No => {},
        Locale::Oc => {},
        Locale::Sa => {},
        Locale::Se => {},
        Locale::Sd => {},
        Locale::Sq => {},
        Locale::Tt => {},
        Locale::Ug => {},
        Locale::Wo => {},
        Locale::Yo => {},
        Locale::Afr => {},
        Locale::Aka => {},
        Locale::Amh => {},
        Locale::Ara => {},
        Locale::Aze => {},
        Locale::Bel => {},
        Locale::Ben => {},
        Locale::Bul => {},
        Locale::Cat => {},
        Locale::Ces => {},
        Locale::Cym => {},
        Locale::Dan => {},
        Locale::Deu => {},
        Locale::Ell => {},
        Locale::Eng => {},
        Locale::Epo => {},
        Locale::Est => {},
        Locale::Fin => {},
        Locale::Fra => {},
        Locale::Guj => {},
        Locale::Heb => {},
        Locale::Hin => {},
        Locale::Hrv => {},
        Locale::Hun => {},
        Locale::Hye => {},
        Locale::Ind => {},
        Locale::Ita => {},
        Locale::Jav => {},
        Locale::Jpn => {},
        Locale::Kan => {},
        Locale::Kat => {},
        Locale::Kaz => {},
        Locale::Khm => {},
        Locale::Kor => {},
        Locale::Lat => {},
        Locale::Lav => {},
        Locale::Lit => {},
        Locale::Mal => {},
        Locale::Mar => {},
        Locale::Mkd => {},
        Locale::Mya => {},
        Locale::Nep => {},
        Locale::Nld => {},
        Locale::Nob => {},
        Locale::Ori => {},
        Locale::Pan => {},
        Locale::Pes => {},
        Locale::Pol => {},
        Locale::Por => {},
        Locale::Ron => {},
        Locale::Rus => {},
        Locale::Sin => {},
        Locale::Slk => {},
        Locale::Slv => {},
        Locale::Sna => {},
        Locale::Spa => {},
        Locale::Srp => {},
        Locale::Swe => {},
        Locale::Tam => {},
        Locale::Tel => {},
        Locale::Tgl => {},
        Locale::Tha => {},
        Locale::Tuk => {},
        Locale::Tur => {},
        Locale::Ukr => {},
        Locale::Urd => {},
        Locale::Uzb => {},
        Locale::Vie => {},
        Locale::Yid => {},
        Locale::Zho => {},
        Locale::Zul => {},
        Locale::Abk => {},
        Locale::Bam => {},
        Locale::Bre => {},
        Locale::Chu => {},
        Locale::Eus => {},
        Locale::Fao => {},
        Locale::Gla => {},
        Locale::Gle => {},
        Locale::Glg => {},
        Locale::Glv => {},
        Locale::Hat => {},
        Locale::Hau => {},
        Locale::Isl => {},
        Locale::Kir => {},
        Locale::Nor => {},
        Locale::Oci => {},
        Locale::San => {},
        Locale::Sme => {},
        Locale::Snd => {},
        Locale::Sqi => {},
        Locale::Tat => {},
        Locale::Uig => {},
        Locale::Wol => {},
        Locale::Yor => {},
        Locale::Abq => {},
        Locale::Aii => {},
        Locale::Ajp => {},
        Locale::Akk => {},
        Locale::Aln => {},
        Locale::Apu => {},
        Locale::Aqz => {},
        Locale::Arb => {},
        Locale::Arh => {},
        Locale::Arr => {},
        Locale::Axm => {},
        Locale::Azz => {},
        Locale::Bho => {},
        Locale::Bor => {},
        Locale::Brh => {},
        Locale::Bxr => {},
        Locale::Ceb => {},
        Locale::Cop => {},
        Locale::Cpg => {},
        Locale::Ctn => {},
        Locale::Egy => {},
        Locale::Eme => {},
        Locale::Ess => {},
        Locale::Frm => {},
        Locale::Fro => {},
        Locale::Got => {},
        Locale::Grc => {},
        Locale::Gub => {},
        Locale::Gun => {},
        Locale::Gwi => {},
        Locale::Gya => {},
        Locale::Hbo => {},
        Locale::Hit => {},
        Locale::Hsb => {},
        Locale::Hyw => {},
        Locale::Kbc => {},
        Locale::Kmr => {},
        Locale::Koi => {},
        Locale::Kpv => {},
        Locale::Krl => {},
        Locale::Lij => {},
        Locale::Lzh => {},
        Locale::Mdf => {},
        Locale::Myu => {},
        Locale::Myv => {},
        Locale::Naq => {},
        Locale::Nds => {},
        Locale::Nhi => {},
        Locale::Nmf => {},
        Locale::Oge => {},
        Locale::Olo => {},
        Locale::Orv => {},
        Locale::Ota => {},
        Locale::Pay => {},
        Locale::Pcm => {},
        Locale::Pro => {},
        Locale::Pst => {},
        Locale::Qaf => {},
        Locale::Qpm => {},
        Locale::Qtd => {},
        Locale::Qti => {},
        Locale::Quc => {},
        Locale::Ruc => {},
        Locale::Sab => {},
        Locale::Sah => {},
        Locale::Say => {},
        Locale::Scn => {},
        Locale::Sga => {},
        Locale::Sjo => {},
        Locale::Sms => {},
        Locale::Ssp => {},
        Locale::Tpn => {},
        Locale::Urb => {},
        Locale::Vep => {},
        Locale::Wbp => {},
        Locale::Wuu => {},
        Locale::Xav => {},
        Locale::Xcl => {},
        Locale::Xnr => {},
        Locale::Xpg => {},
        Locale::Xum => {},
        Locale::Yrk => {},
        Locale::Yrl => {},
        Locale::Yue => {},
        Locale::Zza => {},
        Locale::Cmn => {},
    }
}

/// The code of a three-letter locale is the ISO 639-3 code of its language.
#[verifier::spinoff_prover]
#[verifier::rlimit(100)]
pub proof fn lemma_three_letter_code_is_language_code(loc: Locale)
    ensures
        loc.locale_code().len() == 3 ==> loc.locale_code() == loc.language().iso_code(),
{
    match loc {
        Locale::Af => {},
        Locale::Ak => {},
        Locale::Am => {},
        Locale::Ar => {},
        Locale::Az => {},
        Locale::Be => {},
        Locale::Bn => {},
        Locale::Bg => {},
        Locale::Ca => {},
        Locale::Cs => {},
        Locale::Cy => {},
        Locale::Da => {},
        Locale::De => {},
        Locale::El => {},
        Locale::En => {},
        Locale::Eo => {},
        Locale::Et => {},
        Locale::Fi => {},
        Locale::Fr => {},
        Locale::Gu => {},
        Locale::He => {},
        Locale::Hi => {},
        Locale::Hr => {},
        Locale::Hu => {},
        Locale::Hy => {},
        Locale::Id => {},
        Locale::It => {},
        Locale::Jv => {},
        Locale::Ja => {},
        Locale::Kn => {},
        Locale::Ka => {},
        Locale::Kk => {},
        Locale::Km => {},
        Locale::Ko => {},
        Locale::La => {},
        Locale::Lv => {},
        Locale::Lt => {},
        Locale::Ml => {},
        Locale::Mr => {},
        Locale::Mk => {},
        Locale::My => {},
        Locale::Ne => {},
        Locale::Nl => {},
        Locale::Nb => {},
        Locale::Or => {},
        Locale::Pa => {},
        Locale::Fa => {},
        Locale::Pl => {},
        Locale::Pt => {},
        Locale::Ro => {},
        Locale::Ru => {},
        Locale::Si => {},
        Locale::Sk => {},
        Locale::Sl => {},
        Locale::Sn => {},
        Locale::Es => {},
        Locale::Sr => {},
        Locale::Sv => {},
        Locale::Ta => {},
        Locale::Te => {},
        Locale::Tl => {},
        Locale::Th => {},
        Locale::Tk => {},
        Locale::Tr => {},
        Locale::Uk => {},
        Locale::Ur => {},
        Locale::Uz => {},
        Locale::Vi => {},
        Locale::Yi => {},
        Locale::Zh => {},
        Locale::Zu => {},
        Locale::Ab => {},
        Locale::Bm => {},
        Locale::Br => {},
        Locale::Cu => {},
        Locale::Eu => {},
        Locale::Fo => {},
        Locale::Gd => {},
        Locale::Ga => {},
        Locale::Gl => {},
        Locale::Gv => {},
        Locale::Ht => {},
        Locale::Ha => {},
        Locale::Is => {},
        Locale::Ky => {},
        Locale::No => {},
        Locale::Oc => {},
        Locale::Sa => {},
        Locale::Se => {},
        Locale::Sd => {},
        Locale::Sq => {},
        Locale::Tt => {},
        Locale::Ug => {},
        Locale::Wo => {},
        Locale::Yo => {},
        Locale::Afr => {},
        Locale::Aka => {},
        Locale::Amh => {},
        Locale::Ara => {},
        Locale::Aze => {},
        Locale::Bel => {},
        Locale::Ben => {},
        Locale::Bul => {},
        Locale::Cat => {},
        Locale::Ces => {},
        Locale::Cym => {},
        Locale::Dan => {},
        Locale::Deu => {},
        Locale::Ell => {},
        Locale::Eng => {},
        Locale::Epo => {},
        Locale::Est => {},
        Locale::Fin => {},
        Locale::Fra => {},
        Locale::Guj => {},
        Locale::Heb => {},
        Locale::Hin => {},
        Locale::Hrv => {},
        Locale::Hun => {},
        Locale::Hye => {},
        Locale::Ind => {},
        Locale::Ita => {},
        Locale::Jav => {},
        Locale::Jpn => {},
        Locale::Kan => {},
        Locale::Kat => {},
        Locale::Kaz => {},
        Locale::Khm => {},
        Locale::Kor => {},
        Locale::Lat => {},
        Locale::Lav => {},
        Locale::Lit => {},
        Locale::Mal => {},
        Locale::Mar => {},
        Locale::Mkd => {},
        Locale::Mya => {},
        Locale::Nep => {},
        Locale::Nld => {},
        Locale::Nob => {},
        Locale::Ori => {},
        Locale::Pan => {},
        Locale::Pes => {},
        Locale::Pol => {},
        Locale::Por => {},
        Locale::Ron => {},
        Locale::Rus => {},
        Locale::Sin => {},
        Locale::Slk => {},
        Locale::Slv => {},
        Locale::Sna => {},
        Locale::Spa => {},
        Locale::Srp => {},
        Locale::Swe => {},
        Locale::Tam => {},
        Locale::Tel => {},
        Locale::Tgl => {},
        Locale::Tha => {},
        Locale::Tuk => {},
        Locale::Tur => {},
        Locale::Ukr => {},
        Locale::Urd => {},
        Locale::Uzb => {},
        Locale::Vie => {},
        Locale::Yid => {},
        Locale::Zho => {},
        Locale::Zul => {},
        Locale::Abk => {},
        Locale::Bam => {},
        Locale::Bre => {},
        Locale::Chu => {},
        Locale::Eus => {},
        Locale::Fao => {},
        Locale::Gla => {},
        Locale::Gle => {},
        Locale::Glg => {},
        Locale::Glv => {},
        Locale::Hat => {},
        Locale::Hau => {},
        Locale::Isl => {},
        Locale::Kir => {},
        Locale::Nor => {},
        Locale::Oci => {},
        Locale::San => {},
        Locale::Sme => {},
        Locale::Snd => {},
        Locale::Sqi => {},
        Locale::Tat => {},
        Locale::Uig => {},
        Locale::Wol => {},
        Locale::Yor => {},
        Locale::Abq => {},
        Locale::Aii => {},
        Locale::Ajp => {},
        Locale::Akk => {},
        Locale::Aln => {},
        Locale::Apu => {},
        Locale::Aqz => {},
        Locale::Arb => {},
        Locale::Arh => {},
        Locale::Arr => {},
        Locale::Axm => {},
        Locale::Azz => {},
        Locale::Bho => {},
        Locale::Bor => {},
        Locale::Brh => {},
        Locale::Bxr => {},
        Locale::Ceb => {},
        Locale::Cop => {},
        Locale::Cpg => {},
        Locale::Ctn => {},
        Locale::Egy => {},
        Locale::Eme => {},
        Locale::Ess => {},
        Locale::Frm => {},
        Locale::Fro => {},
        Locale::Got => {},
        Locale::Grc => {},
        Locale::Gub => {},
        Locale::Gun => {},
        Locale::Gwi => {},
        Locale::Gya => {},
        Locale::Hbo => {},
        Locale::Hit => {},
        Locale::Hsb => {},
        Locale::Hyw => {},
        Locale::Kbc => {},
        Locale::Kmr => {},
        Locale::Koi => {},
        Locale::Kpv => {},
        Locale::Krl => {},
        Locale::Lij => {},
        Locale::Lzh => {},
        Locale::Mdf => {},
        Locale::Myu => {},
        Locale::Myv => {},
        Locale::Naq => {},
        Locale::Nds => {},
        Locale::Nhi => {},
        Locale::Nmf => {},
        Locale::Oge => {},
        Locale::Olo => {},
        Locale::Orv => {},
        Locale::Ota => {},
        Locale::Pay => {},
        Locale::Pcm => {},
        Locale::Pro => {},
        Locale::Pst => {},
        Locale::Qaf => {},
        Locale::Qpm => {},
        Locale::Qtd => {},
        Locale::Qti => {},
        Locale::Quc => {},
        Locale::Ruc => {},
        Locale::Sab => {},
        Locale::Sah => {},
        Locale::Say => {},
        Locale::Scn => {},
        Locale::Sga => {},
        Locale::Sjo => {},
        Locale::Sms => {},
        Locale::Ssp => {},
        Locale::Tpn => {},
        Locale::Urb => {},
        Locale::Vep => {},
        Locale::Wbp => {},
        Locale::Wuu => {},
        Locale::Xav => {},
        Locale::Xcl => {},
        Locale::Xnr => {},
        Locale::Xpg => {},
        Locale::Xum => {},
        Locale::Yrk => {},
        Locale::Yrl => {},
        Locale::Yue => {},
        Locale::Zza => {},
        Locale::Cmn => {},
    }
}

/// The locale of a language carries the language's ISO 639-3 code.
pub proof fn lemma_language_locale_has_its_code(l: Language)
    ensures
        Locale::of_language(l).locale_code() == l.iso_code(),
{
    lemma_language_locale_is_three_letter(l);
    lemma_language_round_trip(l);
    lemma_three_letter_code_is_language_code(Locale::of_language(l));
}

} // verus!
