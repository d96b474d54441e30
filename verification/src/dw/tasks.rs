//! The tasks an account can run, in the order of a full run.
use vstd::prelude::*;

pub mod bai_pai_ji_tan;
pub mod bang_pai_shang_hui;
pub mod bei_bao;
pub mod biao_xing_tian_xia;
pub mod cai_dan_shuang;
pub mod deng_lu_shang_dian;
pub mod deng_lu_you_li;
pub mod dian_feng_zhi_zhan;
pub mod dou_jing_tan_mi;
pub mod dui_huan_ma;
pub mod fei_sheng;
pub mod fen_xiang;
pub mod hao_jie_bao_xiang;
pub mod hao_xia_chu_shi;
pub mod hua_juan_mi_zong;
pub mod hua_shan_lun_jian;
pub mod huan_jing;
pub mod hui_wu;
pub mod hui_zhang_zhan_ling;
pub mod huo_yue_li_bao;
pub mod ji_yun_pai;
pub mod jiang_hu_chang_meng;
pub mod jie_bai;
pub mod jin_ri_huo_yue_du;
pub mod jing_ji_chang;
pub mod kuang_dong;
pub mod le_dou;
pub mod le_dou_cai_dan;
pub mod le_dou_huang_li;
pub mod le_dou_yi_zhan;
pub mod le_dou_you_ji;
pub mod li_lian;
pub mod lian_sai;
pub mod ling_qu_tu_di;
pub mod long_huang_zhi_jing;
pub mod lve_duo;
pub mod mei_ri_bao_xiang;
pub mod men_pai;
pub mod men_pai_yao_qing_sai;
pub mod meng_xiang_zhi_lv;
pub mod page;
pub mod qiang_di_pan;
pub mod qun_xiong_zhu_lu;
pub mod ren_wu_pai_qian;
pub mod report;

verus! {

/// A task of the daily run.
#[derive(Debug, Clone, Copy, PartialEq, Eq, Structural)]
pub enum Task {
    /// 分享
    FenXiang,
    /// 乐斗
    LeDou,
    /// 武林
    WuLin,
    /// 结拜
    JieBai,
    /// 侠侣
    XiaLv,
    /// 群侠
    QunXia,
    /// 矿洞
    KuangDong,
    /// 掠夺
    LueDuo,
    /// 踢馆
    TiGuan,
    /// 许愿
    XuYuan,
    /// 历练
    LiLian,
    /// 幻境
    HuanJing,
    /// 门派
    MenPai,
    /// 会武
    HuiWu,
    /// 背包
    BeiBao,
    /// 竞技场
    JingJiChang,
    /// 十二宫
    ShiErGong,
    /// 抢地盘
    QiangDiPan,
    /// 侠客岛
    XiaKeDao,
    /// 世界树
    ShiJieShu,
    /// 每日奖励
    MeiRiJiangLi,
    /// 每日宝箱
    MeiRiBaoXiang,
    /// 邪神秘宝
    XieShenMiBao,
    /// 华山论剑
    HuaShanLunJian,
    /// 巅峰之战
    DianFengZhiZhan,
    /// 镖行天下
    BiaoXingTianXia,
    /// 群雄逐鹿
    QunXiongZhuLu,
    /// 画卷迷踪
    HuaJuanMiZong,
    /// 任务
    RenWu,
    /// 帮派祭坛
    BangPaiJiTan,
    /// 梦想之旅
    MengXiangZhiLv,
    /// 问鼎天下
    WenDingTianXia,
    /// 帮派商会
    BangPaiShangHui,
    /// 武林盟主
    WuLinMengZhu,
    /// 全民乱斗
    QuanMinLuanDou,
    /// 侠士客栈
    XiaShiKeZhan,
    /// 江湖长梦
    JiangHuChangMeng,
    /// 深渊之潮
    ShenYuanZhiChao,
    /// 时空遗迹
    ShiKongYiJi,
    /// 龙凰之境
    LongHuangZhiJing,
    /// 我的帮派
    WoDeBangPai,
    /// 门派邀请赛
    MenPaiYaoQingSai,
    /// 帮派远征军
    BangPaiYuanZhengJun,
    /// 飞升大作战
    FeiShengDaZuoZhan,
    /// 今日活跃度
    JinRiHuoYueDu,
    /// 帮派黄金联赛
    BangPaiHuangJinLianSai,
    /// 任务派遣中心
    RenWuPaiQianZhongXin,
    /// 领取徒弟经验
    LingQuTuDiJingYan,
    /// 仙武修真
    XianWuXiuZhen,
    /// 乐斗黄历
    LeDouHuangLi,
    /// 器魂附魔
    QiHunFuMo,
    /// 兑换码
    DuiHuanMa,
    /// 激运牌
    JiYunPai,
    /// 猜单双
    CaiDanShuang,
    /// 娃娃机
    WaWaJi,
    /// 乐斗驿站
    LeDouYiZhan,
    /// 神魔转盘
    ShenMoZhuanPan,
    /// 登录有礼
    DengLuYouLi,
    /// 徽章战令
    HuiZhangZhanLing,
    /// 职业挑战
    ZhiYeTiaoZhan,
    /// 斗境探秘
    DouJingTanMi,
    /// 深渊秘宝
    ShenYuanMiBao,
    /// 活跃礼包
    HuoYueLiBao,
    /// 乐斗游记
    LeDouYouJi,
    /// 浩劫宝箱
    HaoJieBaoXiang,
    /// 周周礼包
    ZhouZhouLiBao,
    /// 好礼提升
    HaoLiTiSheng,
    /// 幸运金蛋
    XingYunJinDan,
    /// 元武登高
    YuanWuDengGao,
    /// 乐斗菜单
    LeDouCaiDan,
    /// 幸运转盘
    XingYunZhuanPan,
    /// 大侠回归
    DaXiaHuiGui,
    /// 登录商店
    DengLuShangDian,
    /// 豪侠出世
    HaoXiaChuShi,
    /// 秘籍封印
    MiJiFengYin,
}

/// Every task, in the order of a full run.
pub open spec fn all_tasks() -> Seq<Task> {
    seq![
        Task::FenXiang,
        Task::LeDou,
        Task::WuLin,
        Task::JieBai,
        Task::XiaLv,
        Task::QunXia,
        Task::KuangDong,
        Task::LueDuo,
        Task::TiGuan,
        Task::XuYuan,
        Task::LiLian,
        Task::HuanJing,
        Task::MenPai,
        Task::HuiWu,
        Task::BeiBao,
        Task::JingJiChang,
        Task::ShiErGong,
        Task::QiangDiPan,
        Task::XiaKeDao,
        Task::ShiJieShu,
        Task::MeiRiJiangLi,
        Task::MeiRiBaoXiang,
        Task::XieShenMiBao,
        Task::HuaShanLunJian,
        Task::DianFengZhiZhan,
        Task::BiaoXingTianXia,
        Task::QunXiongZhuLu,
        Task::HuaJuanMiZong,
        Task::RenWu,
        Task::BangPaiJiTan,
        Task::MengXiangZhiLv,
        Task::WenDingTianXia,
        Task::BangPaiShangHui,
        Task::WuLinMengZhu,
        Task::QuanMinLuanDou,
        Task::XiaShiKeZhan,
        Task::JiangHuChangMeng,
        Task::ShenYuanZhiChao,
        Task::ShiKongYiJi,
        Task::LongHuangZhiJing,
        Task::WoDeBangPai,
        Task::MenPaiYaoQingSai,
        Task::BangPaiYuanZhengJun,
        Task::FeiShengDaZuoZhan,
        Task::JinRiHuoYueDu,
        Task::BangPaiHuangJinLianSai,
        Task::RenWuPaiQianZhongXin,
        Task::LingQuTuDiJingYan,
        Task::XianWuXiuZhen,
        Task::LeDouHuangLi,
        Task::QiHunFuMo,
        Task::DuiHuanMa,
        Task::JiYunPai,
        Task::CaiDanShuang,
        Task::WaWaJi,
        Task::LeDouYiZhan,
        Task::ShenMoZhuanPan,
        Task::DengLuYouLi,
        Task::HuiZhangZhanLing,
        Task::ZhiYeTiaoZhan,
        Task::DouJingTanMi,
        Task::ShenYuanMiBao,
        Task::HuoYueLiBao,
        Task::LeDouYouJi,
        Task::HaoJieBaoXiang,
        Task::ZhouZhouLiBao,
        Task::HaoLiTiSheng,
        Task::XingYunJinDan,
        Task::YuanWuDengGao,
        Task::LeDouCaiDan,
        Task::XingYunZhuanPan,
        Task::DaXiaHuiGui,
        Task::DengLuShangDian,
        Task::HaoXiaChuShi,
        Task::MiJiFengYin,
    ]
}

impl Task {
    /// The position of the task in a full run.
    pub open spec fn position(self) -> int {
        match self {
            Task::FenXiang => 0,
            Task::LeDou => 1,
            Task::WuLin => 2,
            Task::JieBai => 3,
            Task::XiaLv => 4,
            Task::QunXia => 5,
            Task::KuangDong => 6,
            Task::LueDuo => 7,
            Task::TiGuan => 8,
            Task::XuYuan => 9,
            Task::LiLian => 10,
            Task::HuanJing => 11,
            Task::MenPai => 12,
            Task::HuiWu => 13,
            Task::BeiBao => 14,
            Task::JingJiChang => 15,
            Task::ShiErGong => 16,
            Task::QiangDiPan => 17,
            Task::XiaKeDao => 18,
            Task::ShiJieShu => 19,
            Task::MeiRiJiangLi => 20,
            Task::MeiRiBaoXiang => 21,
            Task::XieShenMiBao => 22,
            Task::HuaShanLunJian => 23,
            Task::DianFengZhiZhan => 24,
            Task::BiaoXingTianXia => 25,
            Task::QunXiongZhuLu => 26,
            Task::HuaJuanMiZong => 27,
            Task::RenWu => 28,
            Task::BangPaiJiTan => 29,
            Task::MengXiangZhiLv => 30,
            Task::WenDingTianXia => 31,
            Task::BangPaiShangHui => 32,
            Task::WuLinMengZhu => 33,
            Task::QuanMinLuanDou => 34,
            Task::XiaShiKeZhan => 35,
            Task::JiangHuChangMeng => 36,
            Task::ShenYuanZhiChao => 37,
            Task::ShiKongYiJi => 38,
            Task::LongHuangZhiJing => 39,
            Task::WoDeBangPai => 40,
            Task::MenPaiYaoQingSai => 41,
            Task::BangPaiYuanZhengJun => 42,
            Task::FeiShengDaZuoZhan => 43,
            Task::JinRiHuoYueDu => 44,
            Task::BangPaiHuangJinLianSai => 45,
            Task::RenWuPaiQianZhongXin => 46,
            Task::LingQuTuDiJingYan => 47,
            Task::XianWuXiuZhen => 48,
            Task::LeDouHuangLi => 49,
            Task::QiHunFuMo => 50,
            Task::DuiHuanMa => 51,
            Task::JiYunPai => 52,
            Task::CaiDanShuang => 53,
            Task::WaWaJi => 54,
            Task::LeDouYiZhan => 55,
            Task::ShenMoZhuanPan => 56,
            Task::DengLuYouLi => 57,
            Task::HuiZhangZhanLing => 58,
            Task::ZhiYeTiaoZhan => 59,
            Task::DouJingTanMi => 60,
            Task::ShenYuanMiBao => 61,
            Task::HuoYueLiBao => 62,
            Task::LeDouYouJi => 63,
            Task::HaoJieBaoXiang => 64,
            Task::ZhouZhouLiBao => 65,
            Task::HaoLiTiSheng => 66,
            Task::XingYunJinDan => 67,
            Task::YuanWuDengGao => 68,
            Task::LeDouCaiDan => 69,
            Task::XingYunZhuanPan => 70,
            Task::DaXiaHuiGui => 71,
            Task::DengLuShangDian => 72,
            Task::HaoXiaChuShi => 73,
            Task::MiJiFengYin => 74,
        }
    }

    /// Every task, in the order of a full run.
    pub fn all() -> (r: Vec<Task>)
        ensures
            r@ == all_tasks(),
    {
        let r = vec![
            Task::FenXiang,
            Task::LeDou,
            Task::WuLin,
            Task::JieBai,
            Task::XiaLv,
            Task::QunXia,
            Task::KuangDong,
            Task::LueDuo,
            Task::TiGuan,
            Task::XuYuan,
            Task::LiLian,
            Task::HuanJing,
            Task::MenPai,
            Task::HuiWu,
            Task::BeiBao,
            Task::JingJiChang,
            Task::ShiErGong,
            Task::QiangDiPan,
            Task::XiaKeDao,
            Task::ShiJieShu,
            Task::MeiRiJiangLi,
            Task::MeiRiBaoXiang,
            Task::XieShenMiBao,
            Task::HuaShanLunJian,
            Task::DianFengZhiZhan,
            Task::BiaoXingTianXia,
            Task::QunXiongZhuLu,
            Task::HuaJuanMiZong,
            Task::RenWu,
            Task::BangPaiJiTan,
            Task::MengXiangZhiLv,
            Task::WenDingTianXia,
            Task::BangPaiShangHui,
            Task::WuLinMengZhu,
            Task::QuanMinLuanDou,
            Task::XiaShiKeZhan,
            Task::JiangHuChangMeng,
            Task::ShenYuanZhiChao,
            Task::ShiKongYiJi,
            Task::LongHuangZhiJing,
            Task::WoDeBangPai,
            Task::MenPaiYaoQingSai,
            Task::BangPaiYuanZhengJun,
            Task::FeiShengDaZuoZhan,
            Task::JinRiHuoYueDu,
            Task::BangPaiHuangJinLianSai,
            Task::RenWuPaiQianZhongXin,
            Task::LingQuTuDiJingYan,
            Task::XianWuXiuZhen,
            Task::LeDouHuangLi,
            Task::QiHunFuMo,
            Task::DuiHuanMa,
            Task::JiYunPai,
            Task::CaiDanShuang,
            Task::WaWaJi,
            Task::LeDouYiZhan,
            Task::ShenMoZhuanPan,
            Task::DengLuYouLi,
            Task::HuiZhangZhanLing,
            Task::ZhiYeTiaoZhan,
            Task::DouJingTanMi,
            Task::ShenYuanMiBao,
            Task::HuoYueLiBao,
            Task::LeDouYouJi,
            Task::HaoJieBaoXiang,
            Task::ZhouZhouLiBao,
            Task::HaoLiTiSheng,
            Task::XingYunJinDan,
            Task::YuanWuDengGao,
            Task::LeDouCaiDan,
            Task::XingYunZhuanPan,
            Task::DaXiaHuiGui,
            Task::DengLuShangDian,
            Task::HaoXiaChuShi,
            Task::MiJiFengYin,
        ];
        assert(r@ =~= all_tasks());
        r
    }

    /// The task's name, as the command line and the logs write it.
    pub fn name(&self) -> (r: &'static str)
        ensures
            r@ == (match self {
                Task::FenXiang => "分享"@,
                Task::LeDou => "乐斗"@,
                Task::WuLin => "武林"@,
                Task::JieBai => "结拜"@,
                Task::XiaLv => "侠侣"@,
                Task::QunXia => "群侠"@,
                Task::KuangDong => "矿洞"@,
                Task::LueDuo => "掠夺"@,
                Task::TiGuan => "踢馆"@,
                Task::XuYuan => "许愿"@,
                Task::LiLian => "历练"@,
                Task::HuanJing => "幻境"@,
                Task::MenPai => "门派"@,
                Task::HuiWu => "会武"@,
                Task::BeiBao => "背包"@,
                Task::JingJiChang => "竞技场"@,
                Task::ShiErGong => "十二宫"@,
                Task::QiangDiPan => "抢地盘"@,
                Task::XiaKeDao => "侠客岛"@,
                Task::ShiJieShu => "世界树"@,
                Task::MeiRiJiangLi => "每日奖励"@,
                Task::MeiRiBaoXiang => "每日宝箱"@,
                Task::XieShenMiBao => "邪神秘宝"@,
                Task::HuaShanLunJian => "华山论剑"@,
                Task::DianFengZhiZhan => "巅峰之战"@,
                Task::BiaoXingTianXia => "镖行天下"@,
                Task::QunXiongZhuLu => "群雄逐鹿"@,
                Task::HuaJuanMiZong => "画卷迷踪"@,
                Task::RenWu => "任务"@,
                Task::BangPaiJiTan => "帮派祭坛"@,
                Task::MengXiangZhiLv => "梦想之旅"@,
                Task::WenDingTianXia => "问鼎天下"@,
                Task::BangPaiShangHui => "帮派商会"@,
                Task::WuLinMengZhu => "武林盟主"@,
                Task::QuanMinLuanDou => "全民乱斗"@,
                Task::XiaShiKeZhan => "侠士客栈"@,
                Task::JiangHuChangMeng => "江湖长梦"@,
                Task::ShenYuanZhiChao => "深渊之潮"@,
                Task::ShiKongYiJi => "时空遗迹"@,
                Task::LongHuangZhiJing => "龙凰之境"@,
                Task::WoDeBangPai => "我的帮派"@,
                Task::MenPaiYaoQingSai => "门派邀请赛"@,
                Task::BangPaiYuanZhengJun => "帮派远征军"@,
                Task::FeiShengDaZuoZhan => "飞升大作战"@,
                Task::JinRiHuoYueDu => "今日活跃度"@,
                Task::BangPaiHuangJinLianSai => "帮派黄金联赛"@,
                Task::RenWuPaiQianZhongXin => "任务派遣中心"@,
                Task::LingQuTuDiJingYan => "领取徒弟经验"@,
                Task::XianWuXiuZhen => "仙武修真"@,
                Task::LeDouHuangLi => "乐斗黄历"@,
                Task::QiHunFuMo => "器魂附魔"@,
                Task::DuiHuanMa => "兑换码"@,
                Task::JiYunPai => "激运牌"@,
                Task::CaiDanShuang => "猜单双"@,
                Task::WaWaJi => "娃娃机"@,
                Task::LeDouYiZhan => "乐斗驿站"@,
                Task::ShenMoZhuanPan => "神魔转盘"@,
                Task::DengLuYouLi => "登录有礼"@,
                Task::HuiZhangZhanLing => "徽章战令"@,
                Task::ZhiYeTiaoZhan => "职业挑战"@,
                Task::DouJingTanMi => "斗境探秘"@,
                Task::ShenYuanMiBao => "深渊秘宝"@,
                Task::HuoYueLiBao => "活跃礼包"@,
                Task::LeDouYouJi => "乐斗游记"@,
                Task::HaoJieBaoXiang => "浩劫宝箱"@,
                Task::ZhouZhouLiBao => "周周礼包"@,
                Task::HaoLiTiSheng => "好礼提升"@,
                Task::XingYunJinDan => "幸运金蛋"@,
                Task::YuanWuDengGao => "元武登高"@,
                Task::LeDouCaiDan => "乐斗菜单"@,
                Task::XingYunZhuanPan => "幸运转盘"@,
                Task::DaXiaHuiGui => "大侠回归"@,
                Task::DengLuShangDian => "登录商店"@,
                Task::HaoXiaChuShi => "豪侠出世"@,
                Task::MiJiFengYin => "秘籍封印"@,
            }),
    {
        match self {
            Task::FenXiang => "分享",
            Task::LeDou => "乐斗",
            Task::WuLin => "武林",
            Task::JieBai => "结拜",
            Task::XiaLv => "侠侣",
            Task::QunXia => "群侠",
            Task::KuangDong => "矿洞",
            Task::LueDuo => "掠夺",
            Task::TiGuan => "踢馆",
            Task::XuYuan => "许愿",
            Task::LiLian => "历练",
            Task::HuanJing => "幻境",
            Task::MenPai => "门派",
            Task::HuiWu => "会武",
            Task::BeiBao => "背包",
            Task::JingJiChang => "竞技场",
            Task::ShiErGong => "十二宫",
            Task::QiangDiPan => "抢地盘",
            Task::XiaKeDao => "侠客岛",
            Task::ShiJieShu => "世界树",
            Task::MeiRiJiangLi => "每日奖励",
            Task::MeiRiBaoXiang => "每日宝箱",
            Task::XieShenMiBao => "邪神秘宝",
            Task::HuaShanLunJian => "华山论剑",
            Task::DianFengZhiZhan => "巅峰之战",
            Task::BiaoXingTianXia => "镖行天下",
            Task::QunXiongZhuLu => "群雄逐鹿",
            Task::HuaJuanMiZong => "画卷迷踪",
            Task::RenWu => "任务",
            Task::BangPaiJiTan => "帮派祭坛",
            Task::MengXiangZhiLv => "梦想之旅",
            Task::WenDingTianXia => "问鼎天下",
            Task::BangPaiShangHui => "帮派商会",
            Task::WuLinMengZhu => "武林盟主",
            Task::QuanMinLuanDou => "全民乱斗",
            Task::XiaShiKeZhan => "侠士客栈",
            Task::JiangHuChangMeng => "江湖长梦",
            Task::ShenYuanZhiChao => "深渊之潮",
            Task::ShiKongYiJi => "时空遗迹",
            Task::LongHuangZhiJing => "龙凰之境",
            Task::WoDeBangPai => "我的帮派",
            Task::MenPaiYaoQingSai => "门派邀请赛",
            Task::BangPaiYuanZhengJun => "帮派远征军",
            Task::FeiShengDaZuoZhan => "飞升大作战",
            Task::JinRiHuoYueDu => "今日活跃度",
            Task::BangPaiHuangJinLianSai => "帮派黄金联赛",
            Task::RenWuPaiQianZhongXin => "任务派遣中心",
            Task::LingQuTuDiJingYan => "领取徒弟经验",
            Task::XianWuXiuZhen => "仙武修真",
            Task::LeDouHuangLi => "乐斗黄历",
            Task::QiHunFuMo => "器魂附魔",
            Task::DuiHuanMa => "兑换码",
            Task::JiYunPai => "激运牌",
            Task::CaiDanShuang => "猜单双",
            Task::WaWaJi => "娃娃机",
            Task::LeDouYiZhan => "乐斗驿站",
            Task::ShenMoZhuanPan => "神魔转盘",
            Task::DengLuYouLi => "登录有礼",
            Task::HuiZhangZhanLing => "徽章战令",
            Task::ZhiYeTiaoZhan => "职业挑战",
            Task::DouJingTanMi => "斗境探秘",
            Task::ShenYuanMiBao => "深渊秘宝",
            Task::HuoYueLiBao => "活跃礼包",
            Task::LeDouYouJi => "乐斗游记",
            Task::HaoJieBaoXiang => "浩劫宝箱",
            Task::ZhouZhouLiBao => "周周礼包",
            Task::HaoLiTiSheng => "好礼提升",
            Task::XingYunJinDan => "幸运金蛋",
            Task::YuanWuDengGao => "元武登高",
            Task::LeDouCaiDan => "乐斗菜单",
            Task::XingYunZhuanPan => "幸运转盘",
            Task::DaXiaHuiGui => "大侠回归",
            Task::DengLuShangDian => "登录商店",
            Task::HaoXiaChuShi => "豪侠出世",
            Task::MiJiFengYin => "秘籍封印",
        }
    }
}

/// A full run holds 75 tasks and each task exactly once, at its position.
pub proof fn law_full_run_lists_each_task_once(t: Task)
    ensures
        all_tasks().len() == 75,
        0 <= t.position() < 75,
        all_tasks()[t.position()] == t,
        forall|i: int| 0 <= i < 75 ==> (#[trigger] all_tasks()[i]).position() == i,
        forall|i: int, j: int| 0 <= i < 75 && 0 <= j < 75 && i != j ==> all_tasks()[i] != all_tasks()[j],
{
    assert forall|i: int| 0 <= i < 75 implies (#[trigger] all_tasks()[i]).position() == i by {
        if i == 0 {
            assert(all_tasks()[0] == Task::FenXiang);
        } else if i == 1 {
            assert(all_tasks()[1] == Task::LeDou);
        } else if i == 2 {
            assert(all_tasks()[2] == Task::WuLin);
        } else if i == 3 {
            assert(all_tasks()[3] == Task::JieBai);
        } else if i == 4 {
            assert(all_tasks()[4] == Task::XiaLv);
        } else if i == 5 {
            assert(all_tasks()[5] == Task::QunXia);
        } else if i == 6 {
            assert(all_tasks()[6] == Task::KuangDong);
        } else if i == 7 {
            assert(all_tasks()[7] == Task::LueDuo);
        } else if i == 8 {
            assert(all_tasks()[8] == Task::TiGuan);
        } else if i == 9 {
            assert(all_tasks()[9] == Task::XuYuan);
        } else if i == 10 {
            assert(all_tasks()[10] == Task::LiLian);
        } else if i == 11 {
            assert(all_tasks()[11] == Task::HuanJing);
        } else if i == 12 {
            assert(all_tasks()[12] == Task::MenPai);
        } else if i == 13 {
            assert(all_tasks()[13] == Task::HuiWu);
        } else if i == 14 {
            assert(all_tasks()[14] == Task::BeiBao);
        } else if i == 15 {
            assert(all_tasks()[15] == Task::JingJiChang);
        } else if i == 16 {
            assert(all_tasks()[16] == Task::ShiErGong);
        } else if i == 17 {
            assert(all_tasks()[17] == Task::QiangDiPan);
        } else if i == 18 {
            assert(all_tasks()[18] == Task::XiaKeDao);
        } else if i == 19 {
            assert(all_tasks()[19] == Task::ShiJieShu);
        } else if i == 20 {
            assert(all_tasks()[20] == Task::MeiRiJiangLi);
        } else if i == 21 {
            assert(all_tasks()[21] == Task::MeiRiBaoXiang);
        } else if i == 22 {
            assert(all_tasks()[22] == Task::XieShenMiBao);
        } else if i == 23 {
            assert(all_tasks()[23] == Task::HuaShanLunJian);
        } else if i == 24 {
            assert(all_tasks()[24] == Task::DianFengZhiZhan);
        } else if i == 25 {
            assert(all_tasks()[25] == Task::BiaoXingTianXia);
        } else if i == 26 {
            assert(all_tasks()[26] == Task::QunXiongZhuLu);
        } else if i == 27 {
            assert(all_tasks()[27] == Task::HuaJuanMiZong);
        } else if i == 28 {
            assert(all_tasks()[28] == Task::RenWu);
        } else if i == 29 {
            assert(all_tasks()[29] == Task::BangPaiJiTan);
        } else if i == 30 {
            assert(all_tasks()[30] == Task::MengXiangZhiLv);
        } else if i == 31 {
            assert(all_tasks()[31] == Task::WenDingTianXia);
        } else if i == 32 {
            assert(all_tasks()[32] == Task::BangPaiShangHui);
        } else if i == 33 {
            assert(all_tasks()[33] == Task::WuLinMengZhu);
        } else if i == 34 {
            assert(all_tasks()[34] == Task::QuanMinLuanDou);
        } else if i == 35 {
            assert(all_tasks()[35] == Task::XiaShiKeZhan);
        } else if i == 36 {
            assert(all_tasks()[36] == Task::JiangHuChangMeng);
        } else if i == 37 {
            assert(all_tasks()[37] == Task::ShenYuanZhiChao);
        } else if i == 38 {
            assert(all_tasks()[38] == Task::ShiKongYiJi);
        } else if i == 39 {
            assert(all_tasks()[39] == Task::LongHuangZhiJing);
        } else if i == 40 {
            assert(all_tasks()[40] == Task::WoDeBangPai);
        } else if i == 41 {
            assert(all_tasks()[41] == Task::MenPaiYaoQingSai);
        } else if i == 42 {
            assert(all_tasks()[42] == Task::BangPaiYuanZhengJun);
        } else if i == 43 {
            assert(all_tasks()[43] == Task::FeiShengDaZuoZhan);
        } else if i == 44 {
            assert(all_tasks()[44] == Task::JinRiHuoYueDu);
        } else if i == 45 {
            assert(all_tasks()[45] == Task::BangPaiHuangJinLianSai);
        } else if i == 46 {
            assert(all_tasks()[46] == Task::RenWuPaiQianZhongXin);
        } else if i == 47 {
            assert(all_tasks()[47] == Task::LingQuTuDiJingYan);
        } else if i == 48 {
            assert(all_tasks()[48] == Task::XianWuXiuZhen);
        } else if i == 49 {
            assert(all_tasks()[49] == Task::LeDouHuangLi);
        } else if i == 50 {
            assert(all_tasks()[50] == Task::QiHunFuMo);
        } else if i == 51 {
            assert(all_tasks()[51] == Task::DuiHuanMa);
        } else if i == 52 {
            assert(all_tasks()[52] == Task::JiYunPai);
        } else if i == 53 {
            assert(all_tasks()[53] == Task::CaiDanShuang);
        } else if i == 54 {
            assert(all_tasks()[54] == Task::WaWaJi);
        } else if i == 55 {
            assert(all_tasks()[55] == Task::LeDouYiZhan);
        } else if i == 56 {
            assert(all_tasks()[56] == Task::ShenMoZhuanPan);
        } else if i == 57 {
            assert(all_tasks()[57] == Task::DengLuYouLi);
        } else if i == 58 {
            assert(all_tasks()[58] == Task::HuiZhangZhanLing);
        } else if i == 59 {
            assert(all_tasks()[59] == Task::ZhiYeTiaoZhan);
        } else if i == 60 {
            assert(all_tasks()[60] == Task::DouJingTanMi);
        } else if i == 61 {
            assert(all_tasks()[61] == Task::ShenYuanMiBao);
        } else if i == 62 {
            assert(all_tasks()[62] == Task::HuoYueLiBao);
        } else if i == 63 {
            assert(all_tasks()[63] == Task::LeDouYouJi);
        } else if i == 64 {
            assert(all_tasks()[64] == Task::HaoJieBaoXiang);
        } else if i == 65 {
            assert(all_tasks()[65] == Task::ZhouZhouLiBao);
        } else if i == 66 {
            assert(all_tasks()[66] == Task::HaoLiTiSheng);
        } else if i == 67 {
            assert(all_tasks()[67] == Task::XingYunJinDan);
        } else if i == 68 {
            assert(all_tasks()[68] == Task::YuanWuDengGao);
        } else if i == 69 {
            assert(all_tasks()[69] == Task::LeDouCaiDan);
        } else if i == 70 {
            assert(all_tasks()[70] == Task::XingYunZhuanPan);
        } else if i == 71 {
            assert(all_tasks()[71] == Task::DaXiaHuiGui);
        } else if i == 72 {
            assert(all_tasks()[72] == Task::DengLuShangDian);
        } else if i == 73 {
            assert(all_tasks()[73] == Task::HaoXiaChuShi);
        } else if i == 74 {
            assert(all_tasks()[74] == Task::MiJiFengYin);
        }
    }
}

} // verus!
