//! Configuration: the global configuration shared by all accounts and the per-account
//! configuration, with their defaults and the checks on their values.
//!
//! Reading and writing the JSON files is left to the caller; every value read from a
//! file goes through `validate` before use.
use vstd::prelude::*;

use crate::text::{
    all_ascii_digits, decimal, occurs_at, owned, push_decimal, push_str, seq_contains, str_all_ascii_digits, str_contains, str_eq,
    to_chars,
};

verus! {

/// Why a configuration is refused.
#[derive(Debug)]
pub enum ConfigError {
    /// A number outside its closed range: the field's path, the range and the value.
    OutOfRange { field: &'static str, min: u32, max: u32, actual: u32 },
    /// The redeem code is not six ASCII digits; holds the code.
    BadRedeemCode(String),
    /// Two layers of the eight-trigram maze use the same trigram; holds the four ids.
    DuplicateBaGua([u8; 4]),
    /// The boss order does not list nine bosses; holds the count.
    BossCount(usize),
    /// The boss order lists a boss twice.
    DuplicateBoss,
    /// More than ten goods to exchange; holds the count.
    TooManyGoods(usize),
    /// A good to exchange is listed twice.
    DuplicateGoods,
    /// More than forty offerings; holds the count.
    TooManyOfferings(usize),
    /// An offering's name is empty or longer than 15 characters.
    BadOffering { index: usize, chars: usize, item: String },
}

impl ConfigError {
    /// The message the user reads for this error.
    pub open spec fn spec_message(&self) -> Seq<char> {
        match *self {
            ConfigError::OutOfRange { field, min, max, actual } => field@ + " 期望 "@ + decimal(min as nat) + "~"@
                + decimal(max as nat) + "，实际为 "@ + decimal(actual as nat),
            ConfigError::BadRedeemCode(code) => "兑换码.code 数字字符串长度应为 6，实际为 \""@ + code@ + "\""@,
            ConfigError::DuplicateBaGua(ids) => "时空遗迹.八卦迷阵 四层卦象不允许重复，当前：["@ + decimal(
                ids[0] as nat,
            ) + ", "@ + decimal(ids[1] as nat) + ", "@ + decimal(ids[2] as nat) + ", "@ + decimal(ids[3] as nat)
                + "]"@,
            ConfigError::BossCount(n) => "历练.乐斗顺序 必须包含全部 9 个 BOSS，当前 "@ + decimal(n as nat) + " 个"@,
            ConfigError::DuplicateBoss => "历练.乐斗顺序 不允许重复"@,
            ConfigError::TooManyGoods(n) => "帮派商会.兑换商店 物品上限 10 个，当前 "@ + decimal(n as nat) + " 个"@,
            ConfigError::DuplicateGoods => "帮派商会.兑换商店 物品不允许重复"@,
            ConfigError::TooManyOfferings(n) => "我的帮派.供奉 期望 0~40 个，当前 "@ + decimal(n as nat) + " 个"@,
            ConfigError::BadOffering { index, chars, item } => "我的帮派.供奉["@ + decimal(index as nat)
                + "] 期望 1~15 字符，实际为 "@ + decimal(chars as nat) + " 字符：\""@ + item@ + "\""@,
        }
    }

    /// The message the user reads for this error.
    pub fn message(&self) -> (r: String)
        ensures
            r@ == self.spec_message(),
    {
        let mut s = String::new();
        match self {
            ConfigError::OutOfRange { field, min, max, actual } => {
                push_str(&mut s, field);
                push_str(&mut s, " 期望 ");
                push_decimal(&mut s, *min as u64);
                push_str(&mut s, "~");
                push_decimal(&mut s, *max as u64);
                push_str(&mut s, "，实际为 ");
                push_decimal(&mut s, *actual as u64);
            },
            ConfigError::BadRedeemCode(code) => {
                push_str(&mut s, "兑换码.code 数字字符串长度应为 6，实际为 \"");
                push_str(&mut s, code.as_str());
                push_str(&mut s, "\"");
            },
            ConfigError::DuplicateBaGua(ids) => {
                push_str(&mut s, "时空遗迹.八卦迷阵 四层卦象不允许重复，当前：[");
                push_decimal(&mut s, ids[0] as u64);
                push_str(&mut s, ", ");
                push_decimal(&mut s, ids[1] as u64);
                push_str(&mut s, ", ");
                push_decimal(&mut s, ids[2] as u64);
                push_str(&mut s, ", ");
                push_decimal(&mut s, ids[3] as u64);
                push_str(&mut s, "]");
            },
            ConfigError::BossCount(n) => {
                push_str(&mut s, "历练.乐斗顺序 必须包含全部 9 个 BOSS，当前 ");
                push_decimal(&mut s, *n as u64);
                push_str(&mut s, " 个");
            },
            ConfigError::DuplicateBoss => {
                push_str(&mut s, "历练.乐斗顺序 不允许重复");
            },
            ConfigError::TooManyGoods(n) => {
                push_str(&mut s, "帮派商会.兑换商店 物品上限 10 个，当前 ");
                push_decimal(&mut s, *n as u64);
                push_str(&mut s, " 个");
            },
            ConfigError::DuplicateGoods => {
                push_str(&mut s, "帮派商会.兑换商店 物品不允许重复");
            },
            ConfigError::TooManyOfferings(n) => {
                push_str(&mut s, "我的帮派.供奉 期望 0~40 个，当前 ");
                push_decimal(&mut s, *n as u64);
                push_str(&mut s, " 个");
            },
            ConfigError::BadOffering { index, chars, item } => {
                push_str(&mut s, "我的帮派.供奉[");
                push_decimal(&mut s, *index as u64);
                push_str(&mut s, "] 期望 1~15 字符，实际为 ");
                push_decimal(&mut s, *chars as u64);
                push_str(&mut s, " 字符：\"");
                push_str(&mut s, item.as_str());
                push_str(&mut s, "\"");
            },
        }
        s
    }
}

/// `Ok` when `min <= v <= max`, else the out-of-range error for `field`.
pub open spec fn range_check(field: &'static str, v: u32, min: u32, max: u32) -> Result<(), ConfigError> {
    if min <= v && v <= max {
        Ok(())
    } else {
        Err(ConfigError::OutOfRange { field, min, max, actual: v })
    }
}

/// The first error of two checks made in turn.
pub open spec fn and_then(a: Result<(), ConfigError>, b: Result<(), ConfigError>) -> Result<(), ConfigError> {
    match a {
        Err(e) => Err(e),
        Ok(_) => b,
    }
}

fn validate_range(field: &'static str, v: u32, min: u32, max: u32) -> (r: Result<(), ConfigError>)
    ensures
        r == range_check(field, v, min, max),
{
    if min <= v && v <= max {
        Ok(())
    } else {
        Err(ConfigError::OutOfRange { field, min, max, actual: v })
    }
}

// ───────── global configuration ─────────

/// The global configuration, shared by all accounts.
#[derive(Debug)]
pub struct GlobalConfig {
    pub yun_xing_shi: YunXingShi,
    pub dui_huan_ma: DuiHuanMa,
    pub shi_kong_yi_ji: ShiKongYiJi,
}

impl Default for GlobalConfig {
    fn default() -> (r: Self)
        ensures
            r.yun_xing_shi.bing_fa_shu == 5,
            r.yun_xing_shi.ri_zhi_bao_liu_tian_shu == 30,
            r.dui_huan_ma.code@ == "161616"@,
            r.shi_kong_yi_ji.ba_gua_mi_zhen.di_yi_ceng == BaGua::Zhen,
            r.shi_kong_yi_ji.ba_gua_mi_zhen.di_er_ceng == BaGua::Xun,
            r.shi_kong_yi_ji.ba_gua_mi_zhen.di_san_ceng == BaGua::Kun,
            r.shi_kong_yi_ji.ba_gua_mi_zhen.di_si_ceng == BaGua::Li,
            r.check_head() is Ok,
            r.shi_kong_yi_ji.ba_gua_mi_zhen.is_valid(),
    {
        GlobalConfig {
            yun_xing_shi: YunXingShi::default(),
            dui_huan_ma: DuiHuanMa::default(),
            shi_kong_yi_ji: ShiKongYiJi::default(),
        }
    }
}

impl GlobalConfig {
    /// The outcome of checking the runtime numbers, then the redeem code.
    pub open spec fn check_head(&self) -> Result<(), ConfigError> {
        and_then(self.yun_xing_shi.check(), self.dui_huan_ma.check())
    }

    /// Checks the runtime numbers, the redeem code and the maze, in that order, and
    /// reports the first failure.
    pub fn validate(&self) -> (r: Result<(), ConfigError>)
        ensures
            self.check_head() is Err ==> r == self.check_head(),
            self.check_head() is Ok ==> (r is Ok <==> self.shi_kong_yi_ji.ba_gua_mi_zhen.is_valid()),
            self.check_head() is Ok ==> (r matches Err(e) ==> (e matches ConfigError::DuplicateBaGua(ids)
                && ids@ == self.shi_kong_yi_ji.ba_gua_mi_zhen.spec_ids())),
    {
        match self.yun_xing_shi.validate() {
            Err(e) => return Err(e),
            Ok(_) => {},
        }
        match self.dui_huan_ma.validate() {
            Err(e) => return Err(e),
            Ok(_) => {},
        }
        self.shi_kong_yi_ji.ba_gua_mi_zhen.validate()
    }
}

/// Runtime settings.
#[derive(Debug)]
pub struct YunXingShi {
    /// Accounts run at the same time, 1~20.
    pub bing_fa_shu: u8,
    /// Days of logs kept, 1~90.
    pub ri_zhi_bao_liu_tian_shu: u8,
}

impl Default for YunXingShi {
    fn default() -> (r: Self)
        ensures
            r.bing_fa_shu == 5,
            r.ri_zhi_bao_liu_tian_shu == 30,
    {
        YunXingShi { bing_fa_shu: 5, ri_zhi_bao_liu_tian_shu: 30 }
    }
}

impl YunXingShi {
    pub open spec fn check(&self) -> Result<(), ConfigError> {
        and_then(
            range_check("运行时.并发数", self.bing_fa_shu as u32, 1, 20),
            range_check("运行时.日志保留天数", self.ri_zhi_bao_liu_tian_shu as u32, 1, 90),
        )
    }

    pub fn validate(&self) -> (r: Result<(), ConfigError>)
        ensures
            r == self.check(),
    {
        match validate_range("运行时.并发数", self.bing_fa_shu as u32, 1, 20) {
            Err(e) => return Err(e),
            Ok(_) => {},
        }
        validate_range("运行时.日志保留天数", self.ri_zhi_bao_liu_tian_shu as u32, 1, 90)
    }
}

/// The redeem code.
#[derive(Debug)]
pub struct DuiHuanMa {
    pub code: String,
}

impl Default for DuiHuanMa {
    fn default() -> (r: Self)
        ensures
            r.code@ == "161616"@,
            r.check() is Ok,
    {
        proof {
            reveal_strlit("161616");
        }
        DuiHuanMa { code: owned("161616") }
    }
}

impl DuiHuanMa {
    /// Six ASCII digits.
    pub open spec fn check(&self) -> Result<(), ConfigError> {
        if self.code@.len() == 6 && all_ascii_digits(self.code@) {
            Ok(())
        } else {
            Err(ConfigError::BadRedeemCode(self.code))
        }
    }

    pub fn validate(&self) -> (r: Result<(), ConfigError>)
        ensures
            r == self.check(),
    {
        let chars = to_chars(self.code.as_str());
        if chars.len() == 6 && str_all_ascii_digits(self.code.as_str()) {
            Ok(())
        } else {
            Err(ConfigError::BadRedeemCode(self.code.clone()))
        }
    }
}

/// Ruins of space and time.
#[derive(Debug)]
pub struct ShiKongYiJi {
    pub ba_gua_mi_zhen: BaGuaMiZhen,
}

impl Default for ShiKongYiJi {
    fn default() -> (r: Self)
        ensures
            r.ba_gua_mi_zhen.di_yi_ceng == BaGua::Zhen,
            r.ba_gua_mi_zhen.di_er_ceng == BaGua::Xun,
            r.ba_gua_mi_zhen.di_san_ceng == BaGua::Kun,
            r.ba_gua_mi_zhen.di_si_ceng == BaGua::Li,
    {
        ShiKongYiJi { ba_gua_mi_zhen: BaGuaMiZhen::default() }
    }
}

/// The eight-trigram maze: the trigram chosen on each of the four layers.
#[derive(Debug)]
pub struct BaGuaMiZhen {
    pub di_yi_ceng: BaGua,
    pub di_er_ceng: BaGua,
    pub di_san_ceng: BaGua,
    pub di_si_ceng: BaGua,
}

impl Default for BaGuaMiZhen {
    fn default() -> (r: Self)
        ensures
            r.di_yi_ceng == BaGua::Zhen,
            r.di_er_ceng == BaGua::Xun,
            r.di_san_ceng == BaGua::Kun,
            r.di_si_ceng == BaGua::Li,
    {
        BaGuaMiZhen {
            di_yi_ceng: BaGua::Zhen,
            di_er_ceng: BaGua::Xun,
            di_san_ceng: BaGua::Kun,
            di_si_ceng: BaGua::Li,
        }
    }
}

/// Every character of `s` names a trigram.
pub open spec fn all_bagua(s: Seq<char>) -> bool {
    forall|i: int| 0 <= i < s.len() ==> (#[trigger] spec_from_char(s[i])) is Some
}

/// The trigrams among the characters of `s`, in order.
pub open spec fn bagua_ids(s: Seq<char>) -> Seq<u8>
    decreases s.len(),
{
    if s.len() == 0 {
        Seq::empty()
    } else {
        let prev = bagua_ids(s.drop_last());
        match spec_from_char(s.last()) {
            Some(b) => prev.push(b.spec_id()),
            None => prev,
        }
    }
}

/// No two of the four values are equal.
pub open spec fn all_distinct4(ids: Seq<u8>) -> bool {
    forall|i: int, j: int| 0 <= i < 4 && 0 <= j < 4 && i != j ==> ids[i] != ids[j]
}

impl BaGuaMiZhen {
    pub open spec fn spec_ids(&self) -> Seq<u8> {
        seq![
            self.di_yi_ceng.spec_id(),
            self.di_er_ceng.spec_id(),
            self.di_san_ceng.spec_id(),
            self.di_si_ceng.spec_id(),
        ]
    }

    /// The four layers use four different trigrams.
    pub open spec fn is_valid(&self) -> bool {
        all_distinct4(self.spec_ids())
    }

    /// The trigram ids of the four layers, in order.
    pub fn ids(&self) -> (r: [u8; 4])
        ensures
            r@ == self.spec_ids(),
    {
        let r = [self.di_yi_ceng.id(), self.di_er_ceng.id(), self.di_san_ceng.id(), self.di_si_ceng.id()];
        assert(r@ =~= self.spec_ids());
        r
    }

    /// The trigram ids named by the characters of `s`, when every character names a
    /// trigram and there are exactly four of them; `None` otherwise.
    pub fn chars_to_ids(&self, s: &str) -> (r: Option<Vec<u8>>)
        ensures
            !all_bagua(s@) ==> r is None,
            all_bagua(s@) && bagua_ids(s@).len() == 4 ==> (r matches Some(v) && v@ == bagua_ids(s@)),
            all_bagua(s@) && bagua_ids(s@).len() != 4 ==> r is None,
    {
        let mut out: Vec<u8> = Vec::new();
        assert(s@.take(0) =~= Seq::<char>::empty());
        for c in iter: s.chars()
            invariant
                iter.seq() == s@,
                out@ == bagua_ids(iter.seq().take(iter.index() as int)),
                all_bagua(iter.seq().take(iter.index() as int)),
        {
            let ghost t = iter.seq().take(iter.index() + 1);
            assert(t.drop_last() =~= iter.seq().take(iter.index() as int));
            assert(t.last() == c);
            match BaGua::from_char(c) {
                Some(b) => {
                    out.push(b.id());
                    assert forall|i: int| 0 <= i < t.len() implies (#[trigger] spec_from_char(t[i])) is Some by {
                        if i < t.len() - 1 {
                            assert(t[i] == iter.seq().take(iter.index() as int)[i]);
                        }
                    }
                },
                None => {
                    assert(s@[iter.index() as int] == c);
                    assert(!all_bagua(s@));
                    return None;
                },
            }
        }
        assert(s@.take(s@.len() as int) =~= s@);
        if out.len() == 4 {
            Some(out)
        } else {
            None
        }
    }

    /// Refused when two layers use the same trigram.
    pub fn validate(&self) -> (r: Result<(), ConfigError>)
        ensures
            r is Ok <==> self.is_valid(),
            r matches Err(e) ==> (e matches ConfigError::DuplicateBaGua(ids) && ids@ == self.spec_ids()),
    {
        let ids = self.ids();
        let mut i: usize = 0;
        while i < 4
            invariant
                i <= 4,
                ids@ == self.spec_ids(),
                forall|a: int, b: int| 0 <= a < i && 0 <= b < 4 && a != b ==> ids@[a] != ids@[b],
            decreases 4 - i,
        {
            let mut j: usize = 0;
            while j < 4
                invariant
                    i < 4,
                    j <= 4,
                    ids@ == self.spec_ids(),
                    forall|a: int, b: int| 0 <= a < i && 0 <= b < 4 && a != b ==> ids@[a] != ids@[b],
                    forall|b: int| 0 <= b < j && b != i ==> ids@[i as int] != ids@[b],
                decreases 4 - j,
            {
                if j != i && ids[i] == ids[j] {
                    return Err(ConfigError::DuplicateBaGua(ids));
                }
                j = j + 1;
            }
            i = i + 1;
        }
        Ok(())
    }
}

/// The eight trigrams.
#[derive(Debug, Clone, Copy, PartialEq, Eq, Structural)]
pub enum BaGua {
    /// 离
    Li,
    /// 坤
    Kun,
    /// 兑
    Dui,
    /// 乾
    Qian,
    /// 坎
    Kan,
    /// 艮
    Gen,
    /// 震
    Zhen,
    /// 巽
    Xun,
}

/// The trigram a character names.
pub open spec fn spec_from_char(c: char) -> Option<BaGua> {
    if c == '离' {
        Some(BaGua::Li)
    } else if c == '坤' {
        Some(BaGua::Kun)
    } else if c == '兑' {
        Some(BaGua::Dui)
    } else if c == '乾' {
        Some(BaGua::Qian)
    } else if c == '坎' {
        Some(BaGua::Kan)
    } else if c == '艮' {
        Some(BaGua::Gen)
    } else if c == '震' {
        Some(BaGua::Zhen)
    } else if c == '巽' {
        Some(BaGua::Xun)
    } else {
        None
    }
}

impl BaGua {
    pub open spec fn spec_id(&self) -> u8 {
        match self {
            BaGua::Li => 1,
            BaGua::Kun => 2,
            BaGua::Dui => 3,
            BaGua::Qian => 4,
            BaGua::Kan => 5,
            BaGua::Gen => 6,
            BaGua::Zhen => 7,
            BaGua::Xun => 8,
        }
    }

    /// The trigram a character names.
    pub fn from_char(c: char) -> (r: Option<BaGua>)
        ensures
            r == spec_from_char(c),
    {
        match c {
            '离' => Some(BaGua::Li),
            '坤' => Some(BaGua::Kun),
            '兑' => Some(BaGua::Dui),
            '乾' => Some(BaGua::Qian),
            '坎' => Some(BaGua::Kan),
            '艮' => Some(BaGua::Gen),
            '震' => Some(BaGua::Zhen),
            '巽' => Some(BaGua::Xun),
            _ => None,
        }
    }

    /// The id of the trigram in the game's requests.
    pub fn id(&self) -> (r: u8)
        ensures
            r == self.spec_id(),
    {
        match self {
            BaGua::Li => 1,
            BaGua::Kun => 2,
            BaGua::Dui => 3,
            BaGua::Qian => 4,
            BaGua::Kan => 5,
            BaGua::Gen => 6,
            BaGua::Zhen => 7,
            BaGua::Xun => 8,
        }
    }
}

/// Different trigrams have different ids, and each id is in 1~8.
pub proof fn law_bagua_ids_distinct(a: BaGua, b: BaGua)
    ensures
        1 <= a.spec_id() <= 8,
        a != b ==> a.spec_id() != b.spec_id(),
{
}

/// The eight trigram characters and their ids: 离 1, 坤 2, 兑 3, 乾 4, 坎 5, 艮 6, 震 7,
/// 巽 8; every other character names no trigram.
pub proof fn law_trigram_ids(c: char)
    ensures
        spec_from_char('离') matches Some(b) && b.spec_id() == 1,
        spec_from_char('坤') matches Some(b) && b.spec_id() == 2,
        spec_from_char('兑') matches Some(b) && b.spec_id() == 3,
        spec_from_char('乾') matches Some(b) && b.spec_id() == 4,
        spec_from_char('坎') matches Some(b) && b.spec_id() == 5,
        spec_from_char('艮') matches Some(b) && b.spec_id() == 6,
        spec_from_char('震') matches Some(b) && b.spec_id() == 7,
        spec_from_char('巽') matches Some(b) && b.spec_id() == 8,
        spec_from_char(c) is Some <==> (c == '离' || c == '坤' || c == '兑' || c == '乾' || c == '坎' || c == '艮'
            || c == '震' || c == '巽'),
{
}

// ───────── per-account configuration ─────────

/// The configuration of one account: a switch or a number for each game activity.
#[derive(Debug)]
pub struct AccountConfig {
    pub kuang_dong: KuangDong,
    pub lue_duo: LueDuo,
    pub li_lian: LiLian,
    pub men_pai: MenPai,
    pub hui_wu: HuiWu,
    pub jing_ji_chang: JingJiChang,
    pub meng_xiang_zhi_lv: MengXiangZhiLv,
    pub wen_ding_tian_xia: WenDingTianXia,
    pub bang_pai_shang_hui: BangPaiShangHui,
    pub xia_shi_ke_zhan: XiaShiKeZhan,
    pub jiang_hu_chang_meng: JiangHuChangMeng,
    pub shen_yuan_zhi_chao: ShenYuanZhiChao,
    pub long_huang_zhi_jing: LongHuangZhiJing,
    pub wo_de_bang_pai: WoDeBangPai,
    pub men_pai_yao_qing_sai: MenPaiYaoQingSai,
}

impl Default for AccountConfig {
    fn default() -> (r: Self)
        ensures
            r.kuang_dong.kai_qi_fu_ben.ceng_shu == KuangDongFloor::F1,
            r.kuang_dong.kai_qi_fu_ben.mo_shi == KuangDongMode::Easy,
            r.lue_duo.mu_biao_zhan_li == 1000,
            r.lue_duo.zhan_li_zeng_liang == 0,
            r.li_lian.le_dou_shun_xu@ == default_boss_order(),
            !r.men_pai.wan_nian_si.fu_fei_gao_xiang_xiang_lu,
            !r.men_pai.ba_ye_tang.fu_fei_tong_men_qie_cuo,
            r.hui_wu.dui_huan_zhen_huang_jin_juan_zhou_shu_liang == 0,
            !r.jing_ji_chang.dui_huan_he_tu_luo_shu,
            r.meng_xiang_zhi_lv.zui_duo_xiao_hao_meng_huan_ji_piao_shu_liang == 3,
            r.wen_ding_tian_xia.gong_zhan_qu_yu == Region::DongHai,
            !r.wen_ding_tian_xia.fu_fei_gong_zhan,
            r.bang_pai_shang_hui.jiao_yi_hui_suo.all_off(),
            r.bang_pai_shang_hui.dui_huan_shang_dian.0@.len() == 1,
            r.bang_pai_shang_hui.dui_huan_shang_dian.0@[0]@ == "泯灭·黑炎V碎片"@,
            r.xia_shi_ke_zhan.hei_shi_shang_ren.all_off(),
            r.jiang_hu_chang_meng.fu_ben.qi_cheng_de_mang_lu_ri_chang == 0,
            r.jiang_hu_chang_meng.dui_huan_shang_xian.all_zero(),
            !r.shen_yuan_zhi_chao.shen_yuan_mi_jing.dui_huan,
            r.shen_yuan_zhi_chao.shen_yuan_mi_jing.fu_ben == ShenYuanMiJingCopy::QiQuDouJie,
            r.long_huang_zhi_jing.dui_huan_shang_xian.all_zero(),
            !r.wo_de_bang_pai.bao_ming,
            r.wo_de_bang_pai.gong_feng@.len() == 1,
            r.wo_de_bang_pai.gong_feng@[0]@ == "还魂丹"@,
            r.men_pai_yao_qing_sai.dui_huan.lian_qi_shi == 0,
            r.men_pai_yao_qing_sai.dui_huan.men_pai_qiang_hua_shu == 0,
            r.check() is Ok,
    {
        AccountConfig {
            kuang_dong: KuangDong::default(),
            lue_duo: LueDuo::default(),
            li_lian: LiLian::default(),
            men_pai: MenPai::default(),
            hui_wu: HuiWu::default(),
            jing_ji_chang: JingJiChang::default(),
            meng_xiang_zhi_lv: MengXiangZhiLv::default(),
            wen_ding_tian_xia: WenDingTianXia::default(),
            bang_pai_shang_hui: BangPaiShangHui::default(),
            xia_shi_ke_zhan: XiaShiKeZhan::default(),
            jiang_hu_chang_meng: JiangHuChangMeng::default(),
            shen_yuan_zhi_chao: ShenYuanZhiChao::default(),
            long_huang_zhi_jing: LongHuangZhiJing::default(),
            wo_de_bang_pai: WoDeBangPai::default(),
            men_pai_yao_qing_sai: MenPaiYaoQingSai::default(),
        }
    }
}

impl AccountConfig {
    /// The outcome of all checks made in turn: plunder, trial boss order, tournament,
    /// dream journey, guild shop, dream exchange limits, dream instances, dragon-phoenix
    /// limits, offerings, sect invitational exchange.
    pub open spec fn check(&self) -> Result<(), ConfigError> {
        and_then(self.lue_duo.check(),
        and_then(self.li_lian.check_of(),
        and_then(self.hui_wu.check(),
        and_then(self.meng_xiang_zhi_lv.check(),
        and_then(self.bang_pai_shang_hui.dui_huan_shang_dian.check(),
        and_then(self.jiang_hu_chang_meng.dui_huan_shang_xian.check(),
        and_then(self.jiang_hu_chang_meng.fu_ben.check(),
        and_then(self.long_huang_zhi_jing.dui_huan_shang_xian.check(),
        and_then(self.wo_de_bang_pai.check(),
        self.men_pai_yao_qing_sai.dui_huan.check())))))))))
    }

    /// Checks every part in the order of `check` and reports the first failure.
    pub fn validate(&self) -> (r: Result<(), ConfigError>)
        ensures
            r == self.check(),
    {
        match self.lue_duo.validate() {
            Err(e) => return Err(e),
            Ok(_) => {},
        }
        match self.li_lian.validate() {
            Err(e) => return Err(e),
            Ok(_) => {},
        }
        match self.hui_wu.validate() {
            Err(e) => return Err(e),
            Ok(_) => {},
        }
        match self.meng_xiang_zhi_lv.validate() {
            Err(e) => return Err(e),
            Ok(_) => {},
        }
        match self.bang_pai_shang_hui.dui_huan_shang_dian.validate() {
            Err(e) => return Err(e),
            Ok(_) => {},
        }
        match self.jiang_hu_chang_meng.dui_huan_shang_xian.validate() {
            Err(e) => return Err(e),
            Ok(_) => {},
        }
        match self.jiang_hu_chang_meng.fu_ben.validate() {
            Err(e) => return Err(e),
            Ok(_) => {},
        }
        match self.long_huang_zhi_jing.dui_huan_shang_xian.validate() {
            Err(e) => return Err(e),
            Ok(_) => {},
        }
        match self.wo_de_bang_pai.validate() {
            Err(e) => return Err(e),
            Ok(_) => {},
        }
        self.men_pai_yao_qing_sai.dui_huan.validate()
    }
}

/// Mine cave.
#[derive(Debug)]
pub struct KuangDong {
    pub kai_qi_fu_ben: KuangDongFuBen,
}

impl Default for KuangDong {
    fn default() -> (r: Self)
        ensures
            r.kai_qi_fu_ben.ceng_shu == KuangDongFloor::F1,
            r.kai_qi_fu_ben.mo_shi == KuangDongMode::Easy,
    {
        KuangDong { kai_qi_fu_ben: KuangDongFuBen::default() }
    }
}

/// The mine instance to open: floor and mode.
#[derive(Debug)]
pub struct KuangDongFuBen {
    /// First to fifth floor.
    pub ceng_shu: KuangDongFloor,
    /// Easy, normal, hard.
    pub mo_shi: KuangDongMode,
}

impl Default for KuangDongFuBen {
    fn default() -> (r: Self)
        ensures
            r.ceng_shu == KuangDongFloor::F1,
            r.mo_shi == KuangDongMode::Easy,
    {
        KuangDongFuBen { ceng_shu: KuangDongFloor::F1, mo_shi: KuangDongMode::Easy }
    }
}

/// Mine floor.
#[derive(Debug, Clone, Copy, PartialEq, Eq, Structural)]
pub enum KuangDongFloor {
    F1,
    F2,
    F3,
    F4,
    F5,
}

impl KuangDongFloor {
    /// The floor's value in requests: `"1"`..`"5"`.
    pub fn api_value(&self) -> (r: &'static str)
        ensures
            r@ == (match self {
                KuangDongFloor::F1 => "1"@,
                KuangDongFloor::F2 => "2"@,
                KuangDongFloor::F3 => "3"@,
                KuangDongFloor::F4 => "4"@,
                KuangDongFloor::F5 => "5"@,
            }),
    {
        match self {
            KuangDongFloor::F1 => "1",
            KuangDongFloor::F2 => "2",
            KuangDongFloor::F3 => "3",
            KuangDongFloor::F4 => "4",
            KuangDongFloor::F5 => "5",
        }
    }
}

/// Mine mode.
#[derive(Debug, Clone, Copy, PartialEq, Eq, Structural)]
pub enum KuangDongMode {
    Easy,
    Normal,
    Hard,
}

impl KuangDongMode {
    /// The mode's value in requests: `"1"`..`"3"`.
    pub fn api_value(&self) -> (r: &'static str)
        ensures
            r@ == (match self {
                KuangDongMode::Easy => "1"@,
                KuangDongMode::Normal => "2"@,
                KuangDongMode::Hard => "3"@,
            }),
    {
        match self {
            KuangDongMode::Easy => "1",
            KuangDongMode::Normal => "2",
            KuangDongMode::Hard => "3",
        }
    }
}

/// Plunder.
///
/// | target power | increment | behaviour |
/// |---|---|---|
/// | >0 | >0 | start at the threshold, raise it when nobody is found |
/// | >0 | =0 | only attack below the threshold, stop when nobody is found |
/// | =0 | >0 | start at 0 and raise it |
/// | =0 | =0 | skip plunder |
#[derive(Debug)]
pub struct LueDuo {
    /// Starting power threshold, 0~99999.
    pub mu_biao_zhan_li: u32,
    /// Step of each raise, 0~9999; 0 means no raise.
    pub zhan_li_zeng_liang: u32,
}

impl Default for LueDuo {
    fn default() -> (r: Self)
        ensures
            r.mu_biao_zhan_li == 1000,
            r.zhan_li_zeng_liang == 0,
    {
        LueDuo { mu_biao_zhan_li: 1000, zhan_li_zeng_liang: 0 }
    }
}

impl LueDuo {
    pub open spec fn check(&self) -> Result<(), ConfigError> {
        and_then(
            range_check("掠夺.目标战力", self.mu_biao_zhan_li, 0, 99999),
            range_check("掠夺.战力增量", self.zhan_li_zeng_liang, 0, 9999),
        )
    }

    pub fn validate(&self) -> (r: Result<(), ConfigError>)
        ensures
            r == self.check(),
    {
        match validate_range("掠夺.目标战力", self.mu_biao_zhan_li, 0, 99999) {
            Err(e) => return Err(e),
            Ok(_) => {},
        }
        validate_range("掠夺.战力增量", self.zhan_li_zeng_liang, 0, 9999)
    }
}

/// The default boss order: all nine bosses.
pub open spec fn default_boss_order() -> Seq<LiLianBoss> {
    seq![
        LiLianBoss::XiongShi,
        LiLianBoss::XiaBingTouMu,
        LiLianBoss::YeChaYuanShuai,
        LiLianBoss::PiLiTouLing,
        LiLianBoss::SongJiang,
        LiLianBoss::DaPeng,
        LiLianBoss::MaDaWang,
        LiLianBoss::ShiXueGuiWang,
        LiLianBoss::XiangXian,
    ]
}

/// Trials.
#[derive(Debug)]
pub struct LiLian {
    /// The order in which the bosses are fought: all nine, none twice.
    pub le_dou_shun_xu: Vec<LiLianBoss>,
}

impl Default for LiLian {
    fn default() -> (r: Self)
        ensures
            r.le_dou_shun_xu@ == default_boss_order(),
            r.check_of() is Ok,
    {
        let v = vec![
            LiLianBoss::XiongShi,
            LiLianBoss::XiaBingTouMu,
            LiLianBoss::YeChaYuanShuai,
            LiLianBoss::PiLiTouLing,
            LiLianBoss::SongJiang,
            LiLianBoss::DaPeng,
            LiLianBoss::MaDaWang,
            LiLianBoss::ShiXueGuiWang,
            LiLianBoss::XiangXian,
        ];
        assert(v@ =~= default_boss_order());
        assert forall|i: int| 0 <= i < 9 implies boss_pos(#[trigger] v@[i]) == i by {
            if i == 0 {
            } else if i == 1 {
            } else if i == 2 {
            } else if i == 3 {
            } else if i == 4 {
            } else if i == 5 {
            } else if i == 6 {
            } else if i == 7 {
            } else {
            }
        }
        assert(no_duplicates(v@)) by {
            assert forall|i: int, j: int| 0 <= i < v@.len() && 0 <= j < v@.len() && i != j implies v@[i] != v@[j] by {
                assert(boss_pos(v@[i]) == i);
                assert(boss_pos(v@[j]) == j);
            }
        }
        LiLian { le_dou_shun_xu: v }
    }
}

/// The place of a boss in the default order.
pub open spec fn boss_pos(b: LiLianBoss) -> int {
    match b {
        LiLianBoss::XiongShi => 0,
        LiLianBoss::XiaBingTouMu => 1,
        LiLianBoss::YeChaYuanShuai => 2,
        LiLianBoss::PiLiTouLing => 3,
        LiLianBoss::SongJiang => 4,
        LiLianBoss::DaPeng => 5,
        LiLianBoss::MaDaWang => 6,
        LiLianBoss::ShiXueGuiWang => 7,
        LiLianBoss::XiangXian => 8,
    }
}

/// No element occurs twice.
pub open spec fn no_duplicates<T>(s: Seq<T>) -> bool {
    forall|i: int, j: int| 0 <= i < s.len() && 0 <= j < s.len() && i != j ==> s[i] != s[j]
}

impl LiLian {
    /// Nine bosses, none twice.
    pub open spec fn is_valid(&self) -> bool {
        self.le_dou_shun_xu@.len() == 9 && no_duplicates(self.le_dou_shun_xu@)
    }

    /// The error for an invalid order.
    pub open spec fn check_of(&self) -> Result<(), ConfigError> {
        if self.le_dou_shun_xu@.len() != 9 {
            Err(ConfigError::BossCount(self.le_dou_shun_xu@.len() as usize))
        } else if !no_duplicates(self.le_dou_shun_xu@) {
            Err(ConfigError::DuplicateBoss)
        } else {
            Ok(())
        }
    }

    pub fn validate(&self) -> (r: Result<(), ConfigError>)
        ensures
            r == self.check_of(),
            r is Ok <==> self.is_valid(),
    {
        let v = &self.le_dou_shun_xu;
        if v.len() != 9 {
            return Err(ConfigError::BossCount(v.len()));
        }
        let mut i: usize = 0;
        while i < v.len()
            invariant
                i <= v@.len(),
                v@.len() == 9,
                v@ == self.le_dou_shun_xu@,
                forall|a: int, b: int| 0 <= a < i && 0 <= b < v@.len() && a != b ==> v@[a] != v@[b],
            decreases v@.len() - i,
        {
            let mut j: usize = 0;
            while j < v.len()
                invariant
                    i < v@.len(),
                    j <= v@.len(),
                    v@.len() == 9,
                v@ == self.le_dou_shun_xu@,
                    forall|a: int, b: int| 0 <= a < i && 0 <= b < v@.len() && a != b ==> v@[a] != v@[b],
                    forall|b: int| 0 <= b < j && b != i ==> v@[i as int] != v@[b],
                decreases v@.len() - j,
            {
                if j != i && v[i] == v[j] {
                    proof {
                        assert(v@[i as int] == v@[j as int]);
                        assert(!no_duplicates(v@));
                    }
                    return Err(ConfigError::DuplicateBoss);
                }
                j = j + 1;
            }
            i = i + 1;
        }
        Ok(())
    }
}

/// The trial bosses.
#[derive(Debug, Clone, Copy, PartialEq, Eq, Hash, Structural)]
pub enum LiLianBoss {
    /// 凶尸-令狐冲
    XiongShi,
    /// 虾兵头目-丁春秋
    XiaBingTouMu,
    /// 夜叉元帅-丘处机
    YeChaYuanShuai,
    /// 霹雳头领-小龙女
    PiLiTouLing,
    /// 宋姜-韦小宝
    SongJiang,
    /// 大鹏-扫地僧
    DaPeng,
    /// 马大王-鹤笔翁
    MaDaWang,
    /// 嗜血鬼王-韦一笑
    ShiXueGuiWang,
    /// 象仙-赵敏
    XiangXian,
}

impl LiLianBoss {
    pub open spec fn spec_mapid(self) -> Seq<char> {
        match self {
            LiLianBoss::XiongShi => "2"@,
            LiLianBoss::XiaBingTouMu => "3"@,
            LiLianBoss::YeChaYuanShuai => "4"@,
            LiLianBoss::PiLiTouLing => "5"@,
            LiLianBoss::SongJiang => "6"@,
            LiLianBoss::DaPeng => "7"@,
            LiLianBoss::MaDaWang => "8"@,
            LiLianBoss::ShiXueGuiWang => "9"@,
            LiLianBoss::XiangXian => "10"@,
        }
    }

    /// The map id of the boss's scene.
    pub fn mapid(self) -> (r: &'static str)
        ensures
            r@ == self.spec_mapid(),
    {
        match self {
            LiLianBoss::XiongShi => "2",
            LiLianBoss::XiaBingTouMu => "3",
            LiLianBoss::YeChaYuanShuai => "4",
            LiLianBoss::PiLiTouLing => "5",
            LiLianBoss::SongJiang => "6",
            LiLianBoss::DaPeng => "7",
            LiLianBoss::MaDaWang => "8",
            LiLianBoss::ShiXueGuiWang => "9",
            LiLianBoss::XiangXian => "10",
        }
    }

    /// The name of the boss as written in the configuration file.
    pub fn name(self) -> (r: &'static str)
        ensures
            r@ == (match self {
                LiLianBoss::XiongShi => "凶尸-令狐冲"@,
                LiLianBoss::XiaBingTouMu => "虾兵头目-丁春秋"@,
                LiLianBoss::YeChaYuanShuai => "夜叉元帅-丘处机"@,
                LiLianBoss::PiLiTouLing => "霹雳头领-小龙女"@,
                LiLianBoss::SongJiang => "宋姜-韦小宝"@,
                LiLianBoss::DaPeng => "大鹏-扫地僧"@,
                LiLianBoss::MaDaWang => "马大王-鹤笔翁"@,
                LiLianBoss::ShiXueGuiWang => "嗜血鬼王-韦一笑"@,
                LiLianBoss::XiangXian => "象仙-赵敏"@,
            }),
    {
        match self {
            LiLianBoss::XiongShi => "凶尸-令狐冲",
            LiLianBoss::XiaBingTouMu => "虾兵头目-丁春秋",
            LiLianBoss::YeChaYuanShuai => "夜叉元帅-丘处机",
            LiLianBoss::PiLiTouLing => "霹雳头领-小龙女",
            LiLianBoss::SongJiang => "宋姜-韦小宝",
            LiLianBoss::DaPeng => "大鹏-扫地僧",
            LiLianBoss::MaDaWang => "马大王-鹤笔翁",
            LiLianBoss::ShiXueGuiWang => "嗜血鬼王-韦一笑",
            LiLianBoss::XiangXian => "象仙-赵敏",
        }
    }
}

/// Sect.
#[derive(Debug)]
pub struct MenPai {
    pub wan_nian_si: WanNianSi,
    pub ba_ye_tang: BaYeTang,
}

impl Default for MenPai {
    fn default() -> (r: Self)
        ensures
            !r.wan_nian_si.fu_fei_gao_xiang_xiang_lu,
            !r.ba_ye_tang.fu_fei_tong_men_qie_cuo,
    {
        MenPai { wan_nian_si: WanNianSi::default(), ba_ye_tang: BaYeTang::default() }
    }
}

/// Ten-thousand-year temple.
#[derive(Debug)]
pub struct WanNianSi {
    /// Paid incense burner: sect contribution ×40 and a sect book ×1.
    pub fu_fei_gao_xiang_xiang_lu: bool,
}

impl Default for WanNianSi {
    fn default() -> (r: Self)
        ensures
            !r.fu_fei_gao_xiang_xiang_lu,
    {
        WanNianSi { fu_fei_gao_xiang_xiang_lu: false }
    }
}

/// Eight-leaf hall.
#[derive(Debug)]
pub struct BaYeTang {
    /// Paid sparring with sect mates: contribution ×60 and 3 activity points.
    pub fu_fei_tong_men_qie_cuo: bool,
}

impl Default for BaYeTang {
    fn default() -> (r: Self)
        ensures
            !r.fu_fei_tong_men_qie_cuo,
    {
        BaYeTang { fu_fei_tong_men_qie_cuo: false }
    }
}

/// Tournament.
#[derive(Debug)]
pub struct HuiWu {
    /// Golden scrolls bought after cheering, 0~100.
    pub dui_huan_zhen_huang_jin_juan_zhou_shu_liang: u32,
}

impl Default for HuiWu {
    fn default() -> (r: Self)
        ensures
            r.dui_huan_zhen_huang_jin_juan_zhou_shu_liang == 0,
    {
        HuiWu { dui_huan_zhen_huang_jin_juan_zhou_shu_liang: 0 }
    }
}

impl HuiWu {
    pub open spec fn check(&self) -> Result<(), ConfigError> {
        range_check("会武.兑换真黄金卷轴数量", self.dui_huan_zhen_huang_jin_juan_zhou_shu_liang, 0, 100)
    }

    pub fn validate(&self) -> (r: Result<(), ConfigError>)
        ensures
            r == self.check(),
    {
        validate_range("会武.兑换真黄金卷轴数量", self.dui_huan_zhen_huang_jin_juan_zhou_shu_liang, 0, 100)
    }
}

/// Arena.
#[derive(Debug)]
pub struct JingJiChang {
    /// Exchange ten river charts a day during the season.
    pub dui_huan_he_tu_luo_shu: bool,
}

impl Default for JingJiChang {
    fn default() -> (r: Self)
        ensures
            !r.dui_huan_he_tu_luo_shu,
    {
        JingJiChang { dui_huan_he_tu_luo_shu: false }
    }
}

/// Dream journey.
#[derive(Debug)]
pub struct MengXiangZhiLv {
    /// Dream tickets spent on Thursdays, 0~9.
    pub zui_duo_xiao_hao_meng_huan_ji_piao_shu_liang: u32,
}

impl Default for MengXiangZhiLv {
    fn default() -> (r: Self)
        ensures
            r.zui_duo_xiao_hao_meng_huan_ji_piao_shu_liang == 3,
    {
        MengXiangZhiLv { zui_duo_xiao_hao_meng_huan_ji_piao_shu_liang: 3 }
    }
}

impl MengXiangZhiLv {
    pub open spec fn check(&self) -> Result<(), ConfigError> {
        range_check("梦想之旅.最多消耗梦幻机票数量", self.zui_duo_xiao_hao_meng_huan_ji_piao_shu_liang, 0, 9)
    }

    pub fn validate(&self) -> (r: Result<(), ConfigError>)
        ensures
            r == self.check(),
    {
        validate_range("梦想之旅.最多消耗梦幻机票数量", self.zui_duo_xiao_hao_meng_huan_ji_piao_shu_liang, 0, 9)
    }
}

/// Contest for the realm.
#[derive(Debug)]
pub struct WenDingTianXia {
    /// Region whose resource point is attacked.
    pub gong_zhan_qu_yu: Region,
    /// Pay for two attacks.
    pub fu_fei_gong_zhan: bool,
}

impl Default for WenDingTianXia {
    fn default() -> (r: Self)
        ensures
            r.gong_zhan_qu_yu == Region::DongHai,
            !r.fu_fei_gong_zhan,
    {
        WenDingTianXia { gong_zhan_qu_yu: Region::DongHai, fu_fei_gong_zhan: false }
    }
}

/// Region to attack.
#[derive(Debug, Clone, Copy, PartialEq, Eq, Structural)]
pub enum Region {
    /// 东海
    DongHai,
    /// 南荒
    NanHuang,
    /// 西泽
    XiZe,
    /// 北寒
    BeiHan,
}

impl Region {
    /// The region's value in requests: `"1"`..`"4"`.
    pub fn api_value(&self) -> (r: &'static str)
        ensures
            r@ == (match self {
                Region::DongHai => "1"@,
                Region::NanHuang => "2"@,
                Region::XiZe => "3"@,
                Region::BeiHan => "4"@,
            }),
    {
        match self {
            Region::DongHai => "1",
            Region::NanHuang => "2",
            Region::XiZe => "3",
            Region::BeiHan => "4",
        }
    }
}

/// Guild market.
#[derive(Debug)]
pub struct BangPaiShangHui {
    /// Trades to accept.
    pub jiao_yi_hui_suo: JiaoYiHuiSuo,
    /// Goods to exchange.
    pub dui_huan_shang_dian: DuiHuanShangDian,
}

impl Default for BangPaiShangHui {
    fn default() -> (r: Self)
        ensures
            r.jiao_yi_hui_suo.all_off(),
            r.dui_huan_shang_dian.0@.len() == 1,
            r.dui_huan_shang_dian.0@[0]@ == "泯灭·黑炎V碎片"@,
    {
        BangPaiShangHui { jiao_yi_hui_suo: JiaoYiHuiSuo::default(), dui_huan_shang_dian: DuiHuanShangDian::default() }
    }
}

/// Trading house: which of the boss's requests to accept.
#[derive(Debug)]
pub struct JiaoYiHuiSuo {
    pub meng_po_tang: bool,
    pub huan_hun_dan: bool,
    pub wu_xing_dan: bool,
    pub bai_lian_gang: bool,
    pub da_ti_li: bool,
    pub tiao_zhan_shu: bool,
    pub jing_yan_yao_shui: bool,
    pub huang_jin_juan_zhou: bool,
    pub shen_lai_quan_tao: bool,
    pub huan_tong_juan_zhou: bool,
    pub shen_bing_yuan_shi: bool,
    pub ruan_wei_jin_si: bool,
    pub feng_huang_yu_mao: bool,
    pub qian_neng_guo_shi: bool,
    pub ben_liu_qi_xi: bool,
    pub shang_gu_yu_sui: bool,
    pub jing_yan_mu_jian: bool,
    pub da_jing_yan_yao_shui: bool,
    pub tou_zhi_wu_qi_fu_wen_shi: bool,
    pub xiao_xing_wu_qi_fu_wen_shi: bool,
    pub zhong_xing_wu_qi_fu_wen_shi: bool,
    pub da_xing_wu_qi_fu_wen_shi: bool,
    pub dian_feng_zhi_zhan_er_deng_xun_zhang: bool,
}

impl Default for JiaoYiHuiSuo {
    fn default() -> (r: Self)
        ensures
            r.all_off(),
    {
        JiaoYiHuiSuo {
            meng_po_tang: false,
            huan_hun_dan: false,
            wu_xing_dan: false,
            bai_lian_gang: false,
            da_ti_li: false,
            tiao_zhan_shu: false,
            jing_yan_yao_shui: false,
            huang_jin_juan_zhou: false,
            shen_lai_quan_tao: false,
            huan_tong_juan_zhou: false,
            shen_bing_yuan_shi: false,
            ruan_wei_jin_si: false,
            feng_huang_yu_mao: false,
            qian_neng_guo_shi: false,
            ben_liu_qi_xi: false,
            shang_gu_yu_sui: false,
            jing_yan_mu_jian: false,
            da_jing_yan_yao_shui: false,
            tou_zhi_wu_qi_fu_wen_shi: false,
            xiao_xing_wu_qi_fu_wen_shi: false,
            zhong_xing_wu_qi_fu_wen_shi: false,
            da_xing_wu_qi_fu_wen_shi: false,
            dian_feng_zhi_zhan_er_deng_xun_zhang: false,
        }
    }
}

impl JiaoYiHuiSuo {
    /// The text each trade is recognised by (item, quantity and a full-width comma, so
    /// that `*20` never matches `*2`), with its switch.
    pub open spec fn spec_items(&self) -> Seq<(&'static str, bool)> {
        seq![
            ("孟婆汤*1，", self.meng_po_tang),
            ("还魂丹*20，", self.huan_hun_dan),
            ("悟性丹*20，", self.wu_xing_dan),
            ("百炼钢*20，", self.bai_lian_gang),
            ("大体力*5，", self.da_ti_li),
            ("挑战书*5，", self.tiao_zhan_shu),
            ("经验药水*5，", self.jing_yan_yao_shui),
            ("黄金卷轴*5，", self.huang_jin_juan_zhou),
            ("神来拳套*5，", self.shen_lai_quan_tao),
            ("还童卷轴*5，", self.huan_tong_juan_zhou),
            ("神兵原石*5，", self.shen_bing_yuan_shi),
            ("软猥金丝*5，", self.ruan_wei_jin_si),
            ("凤凰羽毛*5，", self.feng_huang_yu_mao),
            ("潜能果实*5，", self.qian_neng_guo_shi),
            ("奔流气息*5，", self.ben_liu_qi_xi),
            ("上古玉髓*5，", self.shang_gu_yu_sui),
            ("经验木简*10，", self.jing_yan_mu_jian),
            ("大经验药水*1，", self.da_jing_yan_yao_shui),
            ("投掷武器符文石*5，", self.tou_zhi_wu_qi_fu_wen_shi),
            ("小型武器符文石*5，", self.xiao_xing_wu_qi_fu_wen_shi),
            ("中型武器符文石*5，", self.zhong_xing_wu_qi_fu_wen_shi),
            ("大型武器符文石*5，", self.da_xing_wu_qi_fu_wen_shi),
            ("巅峰之战二等勋章*2，", self.dian_feng_zhi_zhan_er_deng_xun_zhang),
        ]
    }

    /// Every trade is switched off.
    pub open spec fn all_off(&self) -> bool {
        forall|i: int| 0 <= i < 23 ==> !(#[trigger] self.spec_items()[i]).1
    }

    /// The 23 trades with their switches.
    pub fn items(&self) -> (r: Vec<(&'static str, bool)>)
        ensures
            r@ == self.spec_items(),
    {
        let r = vec![
            ("孟婆汤*1，", self.meng_po_tang),
            ("还魂丹*20，", self.huan_hun_dan),
            ("悟性丹*20，", self.wu_xing_dan),
            ("百炼钢*20，", self.bai_lian_gang),
            ("大体力*5，", self.da_ti_li),
            ("挑战书*5，", self.tiao_zhan_shu),
            ("经验药水*5，", self.jing_yan_yao_shui),
            ("黄金卷轴*5，", self.huang_jin_juan_zhou),
            ("神来拳套*5，", self.shen_lai_quan_tao),
            ("还童卷轴*5，", self.huan_tong_juan_zhou),
            ("神兵原石*5，", self.shen_bing_yuan_shi),
            ("软猥金丝*5，", self.ruan_wei_jin_si),
            ("凤凰羽毛*5，", self.feng_huang_yu_mao),
            ("潜能果实*5，", self.qian_neng_guo_shi),
            ("奔流气息*5，", self.ben_liu_qi_xi),
            ("上古玉髓*5，", self.shang_gu_yu_sui),
            ("经验木简*10，", self.jing_yan_mu_jian),
            ("大经验药水*1，", self.da_jing_yan_yao_shui),
            ("投掷武器符文石*5，", self.tou_zhi_wu_qi_fu_wen_shi),
            ("小型武器符文石*5，", self.xiao_xing_wu_qi_fu_wen_shi),
            ("中型武器符文石*5，", self.zhong_xing_wu_qi_fu_wen_shi),
            ("大型武器符文石*5，", self.da_xing_wu_qi_fu_wen_shi),
            ("巅峰之战二等勋章*2，", self.dian_feng_zhi_zhan_er_deng_xun_zhang),
        ];
        assert(r@ =~= self.spec_items());
        r
    }

    /// Whether `tips` asks for a trade that is switched on: it contains the trade's text.
    pub fn is_match(&self, tips: &str) -> (r: bool)
        ensures
            r == exists|i: int|
                0 <= i < 23 && (#[trigger] self.spec_items()[i]).1 && seq_contains(
                    tips@,
                    self.spec_items()[i].0@,
                ),
    {
        let items = self.items();
        let mut i: usize = 0;
        while i < items.len()
            invariant
                items@ == self.spec_items(),
                i <= items@.len(),
                forall|j: int|
                    0 <= j < i ==> !((#[trigger] self.spec_items()[j]).1 && seq_contains(
                        tips@,
                        self.spec_items()[j].0@,
                    )),
            decreases items@.len() - i,
        {
            let (s, enabled) = items[i];
            if enabled && str_contains(tips, s) {
                return true;
            }
            i = i + 1;
        }
        false
    }
}

/// The trade texts do not depend on the switches.
proof fn lemma_same_trade_texts(h1: JiaoYiHuiSuo, h2: JiaoYiHuiSuo, i: int)
    requires
        0 <= i < 23,
    ensures
        h1.spec_items()[i].0 == h2.spec_items()[i].0,
{
}

/// Switching more trades on never loses a match: when every trade switched on in `h1` is
/// switched on in `h2`, whatever `h1` matches `h2` matches too.
pub proof fn law_more_switches_more_matches(h1: JiaoYiHuiSuo, h2: JiaoYiHuiSuo, tips: Seq<char>)
    requires
        forall|i: int| 0 <= i < 23 ==> (#[trigger] h1.spec_items()[i]).1 ==> h2.spec_items()[i].1,
    ensures
        (exists|i: int| 0 <= i < 23 && (#[trigger] h1.spec_items()[i]).1 && seq_contains(tips, h1.spec_items()[i].0@))
            ==> (exists|i: int| 0 <= i < 23 && (#[trigger] h2.spec_items()[i]).1 && seq_contains(tips, h2.spec_items()[i].0@)),
{
    if exists|i: int| 0 <= i < 23 && (#[trigger] h1.spec_items()[i]).1 && seq_contains(tips, h1.spec_items()[i].0@) {
        let i = choose|i: int| 0 <= i < 23 && (#[trigger] h1.spec_items()[i]).1 && seq_contains(tips, h1.spec_items()[i].0@);
        lemma_same_trade_texts(h1, h2, i);
        assert(h2.spec_items()[i].1);
    }
}

/// With every trade switched off (the default) nothing matches.
pub proof fn law_all_off_matches_nothing(h: JiaoYiHuiSuo, tips: Seq<char>)
    requires
        h.all_off(),
    ensures
        !(exists|i: int| 0 <= i < 23 && (#[trigger] h.spec_items()[i]).1 && seq_contains(tips, h.spec_items()[i].0@)),
{
}

/// With every trade switched on, the offer of any trade (the boss's sentence around the
/// trade's text) matches.
pub proof fn law_all_on_matches_each_offer(h: JiaoYiHuiSuo, k: int)
    requires
        forall|i: int| 0 <= i < 23 ==> (#[trigger] h.spec_items()[i]).1,
        0 <= k < 23,
    ensures
        ({
            let tips = "教主想要"@ + h.spec_items()[k].0@ + "他将返回给你200商会银币"@;
            exists|i: int| 0 <= i < 23 && (#[trigger] h.spec_items()[i]).1 && seq_contains(tips, h.spec_items()[i].0@)
        }),
{
    let a = "教主想要"@;
    let t = h.spec_items()[k].0@;
    let tips = a + t + "他将返回给你200商会银币"@;
    assert(tips.subrange(a.len() as int, (a.len() + t.len()) as int) =~= t);
    assert(occurs_at(tips, t, a.len() as int));
    assert(h.spec_items()[k].1);
}

/// Exchange shop: names of the goods to exchange, at most 10, none twice.
#[derive(Debug)]
pub struct DuiHuanShangDian(pub Vec<String>);

impl Default for DuiHuanShangDian {
    fn default() -> (r: Self)
        ensures
            r.0@.len() == 1,
            r.0@[0]@ == "泯灭·黑炎V碎片"@,
            r.check() is Ok,
    {
        DuiHuanShangDian(vec![owned("泯灭·黑炎V碎片")])
    }
}

/// No two strings hold the same characters.
pub open spec fn no_duplicate_strings(s: Seq<String>) -> bool {
    forall|i: int, j: int| 0 <= i < s.len() && 0 <= j < s.len() && i != j ==> s[i]@ != s[j]@
}

impl DuiHuanShangDian {
    pub open spec fn is_valid(&self) -> bool {
        self.0@.len() <= 10 && no_duplicate_strings(self.0@)
    }

    pub open spec fn check(&self) -> Result<(), ConfigError> {
        if self.0@.len() > 10 {
            Err(ConfigError::TooManyGoods(self.0@.len() as usize))
        } else if !no_duplicate_strings(self.0@) {
            Err(ConfigError::DuplicateGoods)
        } else {
            Ok(())
        }
    }

    /// Whether the good is in the list.
    pub fn should_exchange(&self, goods_name: &str) -> (r: bool)
        ensures
            r == exists|i: int| 0 <= i < self.0@.len() && (#[trigger] self.0@[i])@ == goods_name@,
    {
        let mut i: usize = 0;
        while i < self.0.len()
            invariant
                i <= self.0@.len(),
                forall|j: int| 0 <= j < i ==> (#[trigger] self.0@[j])@ != goods_name@,
            decreases self.0@.len() - i,
        {
            if str_eq(self.0[i].as_str(), goods_name) {
                return true;
            }
            i = i + 1;
        }
        false
    }

    pub fn validate(&self) -> (r: Result<(), ConfigError>)
        ensures
            r == self.check(),
    {
        let v = &self.0;
        if v.len() > 10 {
            return Err(ConfigError::TooManyGoods(v.len()));
        }
        let mut i: usize = 0;
        while i < v.len()
            invariant
                i <= v@.len(),
                v@.len() <= 10,
                v@ == self.0@,
                forall|a: int, b: int| 0 <= a < i && 0 <= b < v@.len() && a != b ==> v@[a]@ != v@[b]@,
            decreases v@.len() - i,
        {
            let mut j: usize = 0;
            while j < v.len()
                invariant
                    i < v@.len(),
                    j <= v@.len(),
                    v@.len() <= 10,
                v@ == self.0@,
                    forall|a: int, b: int| 0 <= a < i && 0 <= b < v@.len() && a != b ==> v@[a]@ != v@[b]@,
                    forall|b: int| 0 <= b < j && b != i ==> v@[i as int]@ != v@[b]@,
                decreases v@.len() - j,
            {
                if j != i && str_eq(v[i].as_str(), v[j].as_str()) {
                    proof {
                        assert(v@[i as int]@ == v@[j as int]@);
                        assert(!no_duplicate_strings(v@));
                    }
                    return Err(ConfigError::DuplicateGoods);
                }
                j = j + 1;
            }
            i = i + 1;
        }
        Ok(())
    }
}

/// Hero inn.
#[derive(Debug)]
pub struct XiaShiKeZhan {
    pub hei_shi_shang_ren: HeiShiShangRen,
}

impl Default for XiaShiKeZhan {
    fn default() -> (r: Self)
        ensures
            r.hei_shi_shang_ren.all_off(),
    {
        XiaShiKeZhan { hei_shi_shang_ren: HeiShiShangRen::default() }
    }
}

impl XiaShiKeZhan {
    /// Whether the exchange offered by the adventure `adv_id` is switched on.
    pub fn is_enabled(&self, adv_id: &str) -> (r: bool)
        ensures
            r == self.hei_shi_shang_ren.spec_enabled(adv_id@),
    {
        self.hei_shi_shang_ren.is_enabled(adv_id)
    }
}

/// Each adventure id reads its own switch (`"1010"` reads `ex_1010`, and so on for every
/// listed id), whatever the switches are; unknown ids are off.
pub proof fn law_each_id_reads_its_switch(h: HeiShiShangRen, adv_id: Seq<char>)
    ensures
        h.spec_enabled("1006"@) == h.ex_1006,
        h.spec_enabled("1010"@) == h.ex_1010,
        h.spec_enabled("1011"@) == h.ex_1011,
        h.spec_enabled("1012"@) == h.ex_1012,
        h.spec_enabled("1013"@) == h.ex_1013,
        h.spec_enabled("1014"@) == h.ex_1014,
        adv_id != "1006"@ && adv_id != "1010"@ && adv_id != "1011"@ && adv_id != "1012"@ && adv_id != "1013"@
            && adv_id != "1014"@ ==> !h.spec_enabled(adv_id),
{
    reveal_strlit("1006");
    reveal_strlit("1010");
    reveal_strlit("1011");
    reveal_strlit("1012");
    reveal_strlit("1013");
    reveal_strlit("1014");
    assert("1006"@[2] != "1010"@[2]);
    assert("1010"@[3] != "1011"@[3] && "1010"@[3] != "1012"@[3] && "1010"@[3] != "1013"@[3] && "1010"@[3] != "1014"@[3]);
    assert("1011"@[3] != "1012"@[3] && "1011"@[3] != "1013"@[3] && "1011"@[3] != "1014"@[3]);
    assert("1012"@[3] != "1013"@[3] && "1012"@[3] != "1014"@[3] && "1013"@[3] != "1014"@[3]);
    assert("1006"@[2] != "1011"@[2] && "1006"@[2] != "1012"@[2] && "1006"@[2] != "1013"@[2] && "1006"@[2] != "1014"@[2]);
}

/// Black-market trader: which exchanges to accept.
#[derive(Debug)]
pub struct HeiShiShangRen {
    /// Challenge book ×1 for a black-iron token ×1.
    pub ex_1006: bool,
    /// Golden scroll ×2 for empty spirit stones ×5.
    pub ex_1010: bool,
    /// Sect book ×2 for empty spirit stones ×5.
    pub ex_1011: bool,
    /// Empty spirit stones ×66 for a V-grade fragment ×1.
    pub ex_1012: bool,
    /// Golden scroll ×3 for a god talisman ×1.
    pub ex_1013: bool,
    /// Wordless book ×1 for a trigram book ×1.
    pub ex_1014: bool,
}

impl Default for HeiShiShangRen {
    fn default() -> (r: Self)
        ensures
            r.all_off(),
    {
        HeiShiShangRen {
            ex_1006: false,
            ex_1010: false,
            ex_1011: false,
            ex_1012: false,
            ex_1013: false,
            ex_1014: false,
        }
    }
}

impl HeiShiShangRen {
    pub open spec fn all_off(&self) -> bool {
        !self.ex_1006 && !self.ex_1010 && !self.ex_1011 && !self.ex_1012 && !self.ex_1013 && !self.ex_1014
    }

    pub open spec fn spec_enabled(&self, adv_id: Seq<char>) -> bool {
        if adv_id == "1006"@ {
            self.ex_1006
        } else if adv_id == "1010"@ {
            self.ex_1010
        } else if adv_id == "1011"@ {
            self.ex_1011
        } else if adv_id == "1012"@ {
            self.ex_1012
        } else if adv_id == "1013"@ {
            self.ex_1013
        } else if adv_id == "1014"@ {
            self.ex_1014
        } else {
            false
        }
    }

    /// Whether the exchange offered by the adventure `adv_id` is switched on; unknown ids
    /// are off.
    pub fn is_enabled(&self, adv_id: &str) -> (r: bool)
        ensures
            r == self.spec_enabled(adv_id@),
    {
        if str_eq(adv_id, "1006") {
            self.ex_1006
        } else if str_eq(adv_id, "1010") {
            self.ex_1010
        } else if str_eq(adv_id, "1011") {
            self.ex_1011
        } else if str_eq(adv_id, "1012") {
            self.ex_1012
        } else if str_eq(adv_id, "1013") {
            self.ex_1013
        } else if str_eq(adv_id, "1014") {
            self.ex_1014
        } else {
            false
        }
    }
}

/// Long dream of the martial world.
#[derive(Debug)]
pub struct JiangHuChangMeng {
    pub fu_ben: ChangMengCopy,
    pub dui_huan_shang_xian: ChangMengExchange,
}

impl Default for JiangHuChangMeng {
    fn default() -> (r: Self)
        ensures
            r.fu_ben.qi_cheng_de_mang_lu_ri_chang == 0,
            r.dui_huan_shang_xian.all_zero(),
    {
        JiangHuChangMeng { fu_ben: ChangMengCopy::default(), dui_huan_shang_xian: ChangMengExchange::default() }
    }
}

impl JiangHuChangMeng {
    /// How many times the instance may be run; 0 for instances not configured.
    pub fn limit(&self, copy_name: &str) -> (r: u32)
        ensures
            r == self.fu_ben.spec_limit(copy_name@),
    {
        self.fu_ben.limit(copy_name)
    }
}

/// Dream instances: how many times each may be run.
#[derive(Debug)]
pub struct ChangMengCopy {
    /// 0~200.
    pub qi_cheng_de_mang_lu_ri_chang: u32,
}

impl Default for ChangMengCopy {
    fn default() -> (r: Self)
        ensures
            r.qi_cheng_de_mang_lu_ri_chang == 0,
    {
        ChangMengCopy { qi_cheng_de_mang_lu_ri_chang: 0 }
    }
}

impl ChangMengCopy {
    pub open spec fn spec_limit(&self, copy_name: Seq<char>) -> u32 {
        if copy_name == "柒承的忙碌日常"@ {
            self.qi_cheng_de_mang_lu_ri_chang
        } else {
            0
        }
    }

    pub open spec fn check(&self) -> Result<(), ConfigError> {
        range_check("江湖长梦.副本.柒承的忙碌日常", self.qi_cheng_de_mang_lu_ri_chang, 0, 200)
    }

    /// How many times the instance may be run; 0 for instances not configured.
    pub fn limit(&self, copy_name: &str) -> (r: u32)
        ensures
            r == self.spec_limit(copy_name@),
    {
        if str_eq(copy_name, "柒承的忙碌日常") {
            self.qi_cheng_de_mang_lu_ri_chang
        } else {
            0
        }
    }

    pub fn validate(&self) -> (r: Result<(), ConfigError>)
        ensures
            r == self.check(),
    {
        validate_range("江湖长梦.副本.柒承的忙碌日常", self.qi_cheng_de_mang_lu_ri_chang, 0, 200)
    }
}

/// Dream exchange limits, each 0~50.
#[derive(Debug)]
pub struct ChangMengExchange {
    pub xuan_tie_ling: u32,
    pub cui_huo_jie_jing: u32,
    pub shi_zhong_jian: u32,
    pub da_xing_wu_qi_fu_zhou: u32,
    pub zhong_xing_wu_qi_fu_zhou: u32,
    pub xiao_xing_wu_qi_fu_zhou: u32,
    pub tou_zhi_wu_qi_fu_zhou: u32,
}

impl Default for ChangMengExchange {
    fn default() -> (r: Self)
        ensures
            r.all_zero(),
    {
        ChangMengExchange {
            xuan_tie_ling: 0,
            cui_huo_jie_jing: 0,
            shi_zhong_jian: 0,
            da_xing_wu_qi_fu_zhou: 0,
            zhong_xing_wu_qi_fu_zhou: 0,
            xiao_xing_wu_qi_fu_zhou: 0,
            tou_zhi_wu_qi_fu_zhou: 0,
        }
    }
}

impl ChangMengExchange {
    pub open spec fn all_zero(&self) -> bool {
        self.xuan_tie_ling == 0 && self.cui_huo_jie_jing == 0 && self.shi_zhong_jian == 0
            && self.da_xing_wu_qi_fu_zhou == 0 && self.zhong_xing_wu_qi_fu_zhou == 0
            && self.xiao_xing_wu_qi_fu_zhou == 0 && self.tou_zhi_wu_qi_fu_zhou == 0
    }

    pub open spec fn check(&self) -> Result<(), ConfigError> {
        and_then(range_check("江湖长梦.兑换上限.玄铁令", self.xuan_tie_ling, 0, 50),
        and_then(range_check("江湖长梦.兑换上限.淬火结晶", self.cui_huo_jie_jing, 0, 50),
        and_then(range_check("江湖长梦.兑换上限.石中剑", self.shi_zhong_jian, 0, 50),
        and_then(range_check("江湖长梦.兑换上限.大型武器符咒", self.da_xing_wu_qi_fu_zhou, 0, 50),
        and_then(range_check("江湖长梦.兑换上限.中型武器符咒", self.zhong_xing_wu_qi_fu_zhou, 0, 50),
        and_then(range_check("江湖长梦.兑换上限.小型武器符咒", self.xiao_xing_wu_qi_fu_zhou, 0, 50),
        range_check("江湖长梦.兑换上限.投掷武器符咒", self.tou_zhi_wu_qi_fu_zhou, 0, 50)))))))
    }

    pub fn validate(&self) -> (r: Result<(), ConfigError>)
        ensures
            r == self.check(),
    {
        match validate_range("江湖长梦.兑换上限.玄铁令", self.xuan_tie_ling, 0, 50) {
            Err(e) => return Err(e),
            Ok(_) => {},
        }
        match validate_range("江湖长梦.兑换上限.淬火结晶", self.cui_huo_jie_jing, 0, 50) {
            Err(e) => return Err(e),
            Ok(_) => {},
        }
        match validate_range("江湖长梦.兑换上限.石中剑", self.shi_zhong_jian, 0, 50) {
            Err(e) => return Err(e),
            Ok(_) => {},
        }
        match validate_range("江湖长梦.兑换上限.大型武器符咒", self.da_xing_wu_qi_fu_zhou, 0, 50) {
            Err(e) => return Err(e),
            Ok(_) => {},
        }
        match validate_range("江湖长梦.兑换上限.中型武器符咒", self.zhong_xing_wu_qi_fu_zhou, 0, 50) {
            Err(e) => return Err(e),
            Ok(_) => {},
        }
        match validate_range("江湖长梦.兑换上限.小型武器符咒", self.xiao_xing_wu_qi_fu_zhou, 0, 50) {
            Err(e) => return Err(e),
            Ok(_) => {},
        }
        validate_range("江湖长梦.兑换上限.投掷武器符咒", self.tou_zhi_wu_qi_fu_zhou, 0, 50)
    }
}

/// Tide of the abyss.
#[derive(Debug)]
pub struct ShenYuanZhiChao {
    pub shen_yuan_mi_jing: ShenYuanMiJing,
}

impl Default for ShenYuanZhiChao {
    fn default() -> (r: Self)
        ensures
            !r.shen_yuan_mi_jing.dui_huan,
            r.shen_yuan_mi_jing.fu_ben == ShenYuanMiJingCopy::QiQuDouJie,
    {
        ShenYuanZhiChao { shen_yuan_mi_jing: ShenYuanMiJing::default() }
    }
}

/// Abyss secret realm.
#[derive(Debug)]
pub struct ShenYuanMiJing {
    /// Exchange for instance passes.
    pub dui_huan: bool,
    /// Instance to challenge.
    pub fu_ben: ShenYuanMiJingCopy,
}

impl Default for ShenYuanMiJing {
    fn default() -> (r: Self)
        ensures
            !r.dui_huan,
            r.fu_ben == ShenYuanMiJingCopy::QiQuDouJie,
    {
        ShenYuanMiJing { dui_huan: false, fu_ben: ShenYuanMiJingCopy::QiQuDouJie }
    }
}

/// Abyss instances.
#[derive(Debug, Clone, Copy, PartialEq, Eq, Structural)]
pub enum ShenYuanMiJingCopy {
    /// 崎岖斗界
    QiQuDouJie,
    /// 魂渡桥
    HunDuQiao,
    /// 须臾之河
    XuYuZhiHe,
    /// 曲镜空洞
    QuJingKongDong,
    /// 光影迷界
    GuangYingMiJie,
    /// 吞厄源头
    TunEYuanTou,
    /// 渊秘祭坛
    YuanMiJiTan,
    /// 古帝遗迹
    GuDiYiJi,
}

impl ShenYuanMiJingCopy {
    /// The instance's value in requests: `"1"`..`"8"`.
    pub fn api_id(&self) -> (r: &'static str)
        ensures
            r@ == (match self {
                ShenYuanMiJingCopy::QiQuDouJie => "1"@,
                ShenYuanMiJingCopy::HunDuQiao => "2"@,
                ShenYuanMiJingCopy::XuYuZhiHe => "3"@,
                ShenYuanMiJingCopy::QuJingKongDong => "4"@,
                ShenYuanMiJingCopy::GuangYingMiJie => "5"@,
                ShenYuanMiJingCopy::TunEYuanTou => "6"@,
                ShenYuanMiJingCopy::YuanMiJiTan => "7"@,
                ShenYuanMiJingCopy::GuDiYiJi => "8"@,
            }),
    {
        match self {
            ShenYuanMiJingCopy::QiQuDouJie => "1",
            ShenYuanMiJingCopy::HunDuQiao => "2",
            ShenYuanMiJingCopy::XuYuZhiHe => "3",
            ShenYuanMiJingCopy::QuJingKongDong => "4",
            ShenYuanMiJingCopy::GuangYingMiJie => "5",
            ShenYuanMiJingCopy::TunEYuanTou => "6",
            ShenYuanMiJingCopy::YuanMiJiTan => "7",
            ShenYuanMiJingCopy::GuDiYiJi => "8",
        }
    }
}

/// Realm of dragon and phoenix.
#[derive(Debug)]
pub struct LongHuangZhiJing {
    pub dui_huan_shang_xian: LongHuangYunJi,
}

impl Default for LongHuangZhiJing {
    fn default() -> (r: Self)
        ensures
            r.dui_huan_shang_xian.all_zero(),
    {
        LongHuangZhiJing { dui_huan_shang_xian: LongHuangYunJi::default() }
    }
}

/// Dragon-phoenix exchange limits.
#[derive(Debug)]
pub struct LongHuangYunJi {
    /// 0~100.
    pub huang_sui: u32,
    /// 0~16.
    pub huang_huo: u32,
    /// 0~100.
    pub long_yu: u32,
    /// 0~40.
    pub lun_wu_quan: u32,
}

impl Default for LongHuangYunJi {
    fn default() -> (r: Self)
        ensures
            r.all_zero(),
    {
        LongHuangYunJi { huang_sui: 0, huang_huo: 0, long_yu: 0, lun_wu_quan: 0 }
    }
}

impl LongHuangYunJi {
    pub open spec fn all_zero(&self) -> bool {
        self.huang_sui == 0 && self.huang_huo == 0 && self.long_yu == 0 && self.lun_wu_quan == 0
    }

    pub open spec fn check(&self) -> Result<(), ConfigError> {
        and_then(range_check("龙凰之境.兑换上限.凰髓", self.huang_sui, 0, 100),
        and_then(range_check("龙凰之境.兑换上限.凰火", self.huang_huo, 0, 16),
        and_then(range_check("龙凰之境.兑换上限.龙玉", self.long_yu, 0, 100),
        range_check("龙凰之境.兑换上限.论武券", self.lun_wu_quan, 0, 40))))
    }

    pub fn validate(&self) -> (r: Result<(), ConfigError>)
        ensures
            r == self.check(),
    {
        match validate_range("龙凰之境.兑换上限.凰髓", self.huang_sui, 0, 100) {
            Err(e) => return Err(e),
            Ok(_) => {},
        }
        match validate_range("龙凰之境.兑换上限.凰火", self.huang_huo, 0, 16) {
            Err(e) => return Err(e),
            Ok(_) => {},
        }
        match validate_range("龙凰之境.兑换上限.龙玉", self.long_yu, 0, 100) {
            Err(e) => return Err(e),
            Ok(_) => {},
        }
        validate_range("龙凰之境.兑换上限.论武券", self.lun_wu_quan, 0, 40)
    }
}

/// My guild.
#[derive(Debug)]
pub struct WoDeBangPai {
    /// Sign up for guild events.
    pub bao_ming: bool,
    /// Items offered, at most 40, each 1~15 characters.
    pub gong_feng: Vec<String>,
}

impl Default for WoDeBangPai {
    fn default() -> (r: Self)
        ensures
            !r.bao_ming,
            r.gong_feng@.len() == 1,
            r.gong_feng@[0]@ == "还魂丹"@,
            r.check() is Ok,
    {
        proof {
            reveal_strlit("还魂丹");
        }
        let r = WoDeBangPai { bao_ming: false, gong_feng: vec![owned("还魂丹")] };
        assert(first_bad_offering(r.gong_feng@, 1) is None);
        r
    }
}

/// The name of an offering has 1~15 characters.
pub open spec fn offering_ok(s: String) -> bool {
    1 <= s@.len() <= 15
}

/// The first offering, at index `i` or later, whose name is refused.
pub open spec fn first_bad_offering(s: Seq<String>, i: int) -> Option<int>
    decreases s.len() - i,
{
    if i < 0 || i >= s.len() {
        None
    } else if !offering_ok(s[i]) {
        Some(i)
    } else {
        first_bad_offering(s, i + 1)
    }
}

impl WoDeBangPai {
    pub open spec fn is_valid(&self) -> bool {
        self.gong_feng@.len() <= 40 && first_bad_offering(self.gong_feng@, 0) is None
    }

    pub open spec fn check(&self) -> Result<(), ConfigError> {
        if self.gong_feng@.len() > 40 {
            Err(ConfigError::TooManyOfferings(self.gong_feng@.len() as usize))
        } else {
            match first_bad_offering(self.gong_feng@, 0) {
                Some(i) => Err(
                    ConfigError::BadOffering {
                        index: i as usize,
                        chars: self.gong_feng@[i]@.len() as usize,
                        item: self.gong_feng@[i],
                    },
                ),
                None => Ok(()),
            }
        }
    }

    pub fn validate(&self) -> (r: Result<(), ConfigError>)
        ensures
            r == self.check(),
    {
        let v = &self.gong_feng;
        if v.len() > 40 {
            return Err(ConfigError::TooManyOfferings(v.len()));
        }
        let mut i: usize = 0;
        while i < v.len()
            invariant
                i <= v@.len() <= 40,
                v@ == self.gong_feng@,
                first_bad_offering(v@, 0) == first_bad_offering(v@, i as int),
            decreases v@.len() - i,
        {
            let chars = to_chars(v[i].as_str());
            let n = chars.len();
            assert(n == v@[i as int]@.len());
            if n == 0 || n > 15 {
                assert(first_bad_offering(v@, i as int) == Some(i as int));
                return Err(ConfigError::BadOffering { index: i, chars: n, item: v[i].clone() });
            }
            i = i + 1;
        }
        Ok(())
    }
}

/// Sect invitational.
#[derive(Debug)]
pub struct MenPaiYaoQingSai {
    pub dui_huan: MenPaiExchange,
}

impl Default for MenPaiYaoQingSai {
    fn default() -> (r: Self)
        ensures
            r.dui_huan.lian_qi_shi == 0,
            r.dui_huan.men_pai_qiang_hua_shu == 0,
    {
        MenPaiYaoQingSai { dui_huan: MenPaiExchange::default() }
    }
}

/// Sect invitational exchange limits, each 0~20.
#[derive(Debug)]
pub struct MenPaiExchange {
    pub lian_qi_shi: u32,
    pub men_pai_qiang_hua_shu: u32,
}

impl Default for MenPaiExchange {
    fn default() -> (r: Self)
        ensures
            r.lian_qi_shi == 0,
            r.men_pai_qiang_hua_shu == 0,
    {
        MenPaiExchange { lian_qi_shi: 0, men_pai_qiang_hua_shu: 0 }
    }
}

impl MenPaiExchange {
    pub open spec fn check(&self) -> Result<(), ConfigError> {
        and_then(
            range_check("门派邀请赛.兑换.炼气石", self.lian_qi_shi, 0, 20),
            range_check("门派邀请赛.兑换.门派强化书", self.men_pai_qiang_hua_shu, 0, 20),
        )
    }

    pub fn validate(&self) -> (r: Result<(), ConfigError>)
        ensures
            r == self.check(),
    {
        match validate_range("门派邀请赛.兑换.炼气石", self.lian_qi_shi, 0, 20) {
            Err(e) => return Err(e),
            Ok(_) => {},
        }
        validate_range("门派邀请赛.兑换.门派强化书", self.men_pai_qiang_hua_shu, 0, 20)
    }
}

/// Each number of the configuration is accepted exactly within its range: 并发数 1~20 and
/// 日志保留天数 1~90; 目标战力 0~99999 and 战力增量 0~9999; 兑换真黄金卷轴数量 0~100;
/// 最多消耗梦幻机票数量 0~9; 柒承的忙碌日常 0~200; each dream exchange limit 0~50; 凰髓 and
/// 龙玉 0~100, 凰火 0~16, 论武券 0~40; 炼气石 and 门派强化书 0~20.
pub proof fn law_number_ranges(
    y: YunXingShi,
    l: LueDuo,
    h: HuiWu,
    m: MengXiangZhiLv,
    c: ChangMengCopy,
    x: ChangMengExchange,
    g: LongHuangYunJi,
    p: MenPaiExchange,
)
    ensures
        y.check() is Ok <==> (1 <= y.bing_fa_shu <= 20 && 1 <= y.ri_zhi_bao_liu_tian_shu <= 90),
        l.check() is Ok <==> (l.mu_biao_zhan_li <= 99999 && l.zhan_li_zeng_liang <= 9999),
        h.check() is Ok <==> h.dui_huan_zhen_huang_jin_juan_zhou_shu_liang <= 100,
        m.check() is Ok <==> m.zui_duo_xiao_hao_meng_huan_ji_piao_shu_liang <= 9,
        c.check() is Ok <==> c.qi_cheng_de_mang_lu_ri_chang <= 200,
        x.check() is Ok <==> (x.xuan_tie_ling <= 50 && x.cui_huo_jie_jing <= 50 && x.shi_zhong_jian <= 50
            && x.da_xing_wu_qi_fu_zhou <= 50 && x.zhong_xing_wu_qi_fu_zhou <= 50 && x.xiao_xing_wu_qi_fu_zhou
            <= 50 && x.tou_zhi_wu_qi_fu_zhou <= 50),
        g.check() is Ok <==> (g.huang_sui <= 100 && g.huang_huo <= 16 && g.long_yu <= 100 && g.lun_wu_quan
            <= 40),
        p.check() is Ok <==> (p.lian_qi_shi <= 20 && p.men_pai_qiang_hua_shu <= 20),
{
}

proof fn lemma_first_bad_offering(s: Seq<String>, i: int)
    requires
        0 <= i <= s.len(),
    ensures
        first_bad_offering(s, i) is None <==> forall|k: int| i <= k < s.len() ==> 1 <= (#[trigger] s[k])@.len()
            <= 15,
    decreases s.len() - i,
{
    if i < s.len() {
        lemma_first_bad_offering(s, i + 1);
    }
}

/// The offerings are accepted exactly when there are at most 40 of them and each name has
/// 1~15 characters; the guild shop list exactly when it holds at most 10 goods, no two
/// of the same name.
pub proof fn law_lists_accepted(w: WoDeBangPai, d: DuiHuanShangDian)
    ensures
        w.check() is Ok <==> (w.gong_feng@.len() <= 40 && forall|k: int|
            0 <= k < w.gong_feng@.len() ==> 1 <= (#[trigger] w.gong_feng@[k])@.len() <= 15),
        d.check() is Ok <==> (d.0@.len() <= 10 && forall|i: int, j: int|
            0 <= i < j < d.0@.len() ==> (#[trigger] d.0@[i])@ != (#[trigger] d.0@[j])@),
{
    lemma_first_bad_offering(w.gong_feng@, 0);
    if d.check() is Ok {
        assert forall|i: int, j: int| 0 <= i < j < d.0@.len() implies (#[trigger] d.0@[i])@ != (
        #[trigger] d.0@[j])@ by {}
    }
    if d.0@.len() <= 10 && forall|i: int, j: int|
        0 <= i < j < d.0@.len() ==> (#[trigger] d.0@[i])@ != (#[trigger] d.0@[j])@ {
        assert forall|i: int, j: int|
            0 <= i < d.0@.len() && 0 <= j < d.0@.len() && i != j implies d.0@[i]@ != d.0@[j]@ by {
            if i < j {
                assert(d.0@[i]@ != d.0@[j]@);
            } else {
                assert(d.0@[j]@ != d.0@[i]@);
            }
        }
    }
}

/// The bosses lie on maps 2 to 10, in the default order: 凶尸 on map 2 up to 象仙 on map
/// 10. No two bosses share a map.
pub proof fn law_boss_maps(a: LiLianBoss, b: LiLianBoss)
    ensures
        LiLianBoss::XiongShi.spec_mapid() == "2"@,
        LiLianBoss::XiaBingTouMu.spec_mapid() == "3"@,
        LiLianBoss::YeChaYuanShuai.spec_mapid() == "4"@,
        LiLianBoss::PiLiTouLing.spec_mapid() == "5"@,
        LiLianBoss::SongJiang.spec_mapid() == "6"@,
        LiLianBoss::DaPeng.spec_mapid() == "7"@,
        LiLianBoss::MaDaWang.spec_mapid() == "8"@,
        LiLianBoss::ShiXueGuiWang.spec_mapid() == "9"@,
        LiLianBoss::XiangXian.spec_mapid() == "10"@,
        a != b ==> a.spec_mapid() != b.spec_mapid(),
        forall|k: int| 0 <= k < 9 ==> #[trigger] default_boss_order()[k].spec_mapid() == seq![
            "2"@, "3"@, "4"@, "5"@, "6"@, "7"@, "8"@, "9"@, "10"@,
        ][k],
{
    reveal_strlit("2");
    reveal_strlit("3");
    reveal_strlit("4");
    reveal_strlit("5");
    reveal_strlit("6");
    reveal_strlit("7");
    reveal_strlit("8");
    reveal_strlit("9");
    reveal_strlit("10");
    assert(a != b ==> a.spec_mapid() != b.spec_mapid()) by {
        if a != b {
            if a.spec_mapid().len() == 1 && b.spec_mapid().len() == 1 {
                assert(a.spec_mapid()[0] != b.spec_mapid()[0]);
            }
        }
    }
}

} // verus!
