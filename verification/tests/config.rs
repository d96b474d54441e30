use dld::common::config::{
    AccountConfig, BaGua, BaGuaMiZhen, ChangMengCopy, ChangMengExchange, ConfigError, DuiHuanMa,
    DuiHuanShangDian, GlobalConfig, HeiShiShangRen, JiaoYiHuiSuo, KuangDongFloor, KuangDongMode,
    LiLian, LiLianBoss, LongHuangYunJi, LueDuo, MenPaiExchange, WoDeBangPai, XiaShiKeZhan,
    YunXingShi,
};

#[test]
fn test_global_config_default() {
    let config = GlobalConfig::default();
    assert_eq!(config.yun_xing_shi.bing_fa_shu, 5);
    assert_eq!(config.yun_xing_shi.ri_zhi_bao_liu_tian_shu, 30);
    assert_eq!(config.dui_huan_ma.code, "161616");
    assert_eq!(config.shi_kong_yi_ji.ba_gua_mi_zhen.di_yi_ceng, BaGua::Zhen);
    assert_eq!(config.shi_kong_yi_ji.ba_gua_mi_zhen.ids(), [7, 8, 2, 1]);
}

#[test]
fn test_account_config_default() {
    let config = AccountConfig::default();
    assert_eq!(config.kuang_dong.kai_qi_fu_ben.ceng_shu, KuangDongFloor::F1);
    assert_eq!(config.kuang_dong.kai_qi_fu_ben.mo_shi, KuangDongMode::Easy);
    assert!(!config.jing_ji_chang.dui_huan_he_tu_luo_shu);
    assert_eq!(config.meng_xiang_zhi_lv.zui_duo_xiao_hao_meng_huan_ji_piao_shu_liang, 3);
    assert!(!config.xia_shi_ke_zhan.hei_shi_shang_ren.ex_1006);
    assert_eq!(config.li_lian.le_dou_shun_xu.len(), 9);
    assert_eq!(config.li_lian.le_dou_shun_xu[0], LiLianBoss::XiongShi);
    assert_eq!(config.li_lian.le_dou_shun_xu[8], LiLianBoss::XiangXian);
}

#[test]
fn test_chang_meng_copy_limit() {
    let copy = ChangMengCopy { qi_cheng_de_mang_lu_ri_chang: 3 };
    assert_eq!(copy.limit("柒承的忙碌日常"), 3);
    assert_eq!(copy.limit("未知副本"), 0);
}

#[test]
fn test_wo_de_bang_pai_too_many_offerings() {
    let config = WoDeBangPai { bao_ming: false, gong_feng: (0..41).map(|i| format!("物品{i}")).collect() };
    assert!(config.validate().is_err());
}

#[test]
fn test_wo_de_bang_pai_item_too_long() {
    let config = WoDeBangPai { bao_ming: false, gong_feng: vec!["a".repeat(16)] };
    assert!(config.validate().is_err());
}

#[test]
fn test_wo_de_bang_pai_empty_offering() {
    let config = WoDeBangPai { bao_ming: false, gong_feng: vec!["".to_string()] };
    assert!(config.validate().is_err());
}

#[test]
fn test_wo_de_bang_pai_chinese_chars_valid() {
    let config = WoDeBangPai { bao_ming: false, gong_feng: vec!["供".repeat(11)] };
    assert!(config.validate().is_ok());
}

#[test]
fn test_wo_de_bang_pai_too_many_chars() {
    let config = WoDeBangPai { bao_ming: false, gong_feng: vec!["供".repeat(16)] };
    assert!(config.validate().is_err());
}

#[test]
fn test_wo_de_bang_pai_valid() {
    let config = WoDeBangPai { bao_ming: false, gong_feng: vec!["还魂丹".to_string(), "经验药水".to_string()] };
    assert!(config.validate().is_ok());
}

#[test]
fn test_bagua_from_char_all_valid() {
    let chars = ['离', '坤', '兑', '乾', '坎', '艮', '震', '巽'];
    for &c in &chars {
        assert!(BaGua::from_char(c).is_some(), "the character '{c}' names a trigram");
    }
    assert_eq!(chars.len(), 8);
}

#[test]
fn test_bagua_from_char_invalid() {
    assert!(BaGua::from_char('a').is_none());
    assert!(BaGua::from_char('1').is_none());
    assert!(BaGua::from_char('中').is_none());
    assert!(BaGua::from_char('雷').is_none());
}

#[test]
fn test_chars_to_ids_valid() {
    let bagua = BaGuaMiZhen::default();
    // 乾=4 坤=2 坎=5 离=1
    let ids = bagua.chars_to_ids("乾坤坎离").unwrap();
    assert_eq!(ids, vec![4, 2, 5, 1]);
}

#[test]
fn test_chars_to_ids_too_short() {
    let bagua = BaGuaMiZhen::default();
    assert!(bagua.chars_to_ids("乾坤").is_none());
}

#[test]
fn test_chars_to_ids_too_many() {
    let bagua = BaGuaMiZhen::default();
    // more than four trigrams give none too
    assert!(bagua.chars_to_ids("乾坤坎离震").is_none());
}

#[test]
fn test_chars_to_ids_invalid_chars_mixed() {
    let bagua = BaGuaMiZhen::default();
    // other characters: fewer than four trigrams
    assert!(bagua.chars_to_ids("ab乾坤").is_none());
}

#[test]
fn test_chars_to_ids_empty() {
    let bagua = BaGuaMiZhen::default();
    assert!(bagua.chars_to_ids("").is_none());
}

#[test]
fn test_bagua_mizhen_validate_all_different() {
    let bagua = BaGuaMiZhen::default();
    // the default 震巽坤离 uses four different trigrams
    assert!(bagua.validate().is_ok());
}

#[test]
fn test_bagua_mizhen_validate_duplicate() {
    let bagua = BaGuaMiZhen {
        di_yi_ceng: BaGua::Zhen,
        di_er_ceng: BaGua::Zhen,
        di_san_ceng: BaGua::Kun,
        di_si_ceng: BaGua::Li,
    };
    assert!(bagua.validate().is_err());
}

#[test]
fn test_is_enabled_known_adv_ids() {
    let kezhan = XiaShiKeZhan {
        hei_shi_shang_ren: HeiShiShangRen {
            ex_1006: true,
            ex_1010: false,
            ex_1011: false,
            ex_1012: true,
            ex_1013: false,
            ex_1014: true,
        },
    };
    assert!(kezhan.is_enabled("1006"));
    assert!(!kezhan.is_enabled("1010"));
    assert!(!kezhan.is_enabled("1011"));
    assert!(kezhan.is_enabled("1012"));
    assert!(!kezhan.is_enabled("1013"));
    assert!(kezhan.is_enabled("1014"));
}

#[test]
fn test_is_enabled_unknown_adv_id() {
    let kezhan = XiaShiKeZhan::default();
    assert!(!kezhan.is_enabled("9999"));
    assert!(!kezhan.is_enabled(""));
    assert!(!kezhan.is_enabled("1007"));
}

fn all_items(v: bool) -> JiaoYiHuiSuo {
    JiaoYiHuiSuo {
        meng_po_tang: v,
        huan_hun_dan: v,
        wu_xing_dan: v,
        bai_lian_gang: v,
        da_ti_li: v,
        tiao_zhan_shu: v,
        jing_yan_yao_shui: v,
        huang_jin_juan_zhou: v,
        shen_lai_quan_tao: v,
        huan_tong_juan_zhou: v,
        shen_bing_yuan_shi: v,
        ruan_wei_jin_si: v,
        feng_huang_yu_mao: v,
        qian_neng_guo_shi: v,
        ben_liu_qi_xi: v,
        shang_gu_yu_sui: v,
        jing_yan_mu_jian: v,
        da_jing_yan_yao_shui: v,
        tou_zhi_wu_qi_fu_wen_shi: v,
        xiao_xing_wu_qi_fu_wen_shi: v,
        zhong_xing_wu_qi_fu_wen_shi: v,
        da_xing_wu_qi_fu_wen_shi: v,
        dian_feng_zhi_zhan_er_deng_xun_zhang: v,
    }
}

#[test]
fn test_is_match_items_count() {
    let huisuo = JiaoYiHuiSuo::default();
    assert_eq!(huisuo.items().len(), 23);
}

#[test]
fn test_is_match_all_enabled() {
    let huisuo = all_items(true);
    for (s, enabled) in huisuo.items() {
        assert!(enabled, "{s:?} is on in items()");
        let tip = format!("教主想要{s}他将返回给你200商会银币");
        assert!(huisuo.is_match(&tip), "switched on, it matches: {s}");
    }
}

#[test]
fn test_is_match_all_disabled() {
    let huisuo = JiaoYiHuiSuo::default();
    for (s, _) in huisuo.items() {
        let tip = format!("教主想要{s}他将返回给你200商会银币");
        assert!(!huisuo.is_match(&tip), "off by default, it does not match: {s}");
    }
}

#[test]
fn test_is_match_quantity_mismatch() {
    let huisuo = all_items(true);
    // a wrong quantity does not match: the *20 goods tried with *2, the *5 ones with *50
    assert!(!huisuo.is_match("教主想要还魂丹*2，他将返回给你200商会银币"));
    assert!(!huisuo.is_match("教主想要大体力*50，他将返回给你200商会银币"));
    assert!(!huisuo.is_match("教主想要经验木简*1，他将返回给你200商会银币"));
    assert!(!huisuo.is_match("教主想要大经验药水*10，他将返回给你200商会银币"));
    assert!(!huisuo.is_match("教主想要巅峰之战二等勋章*1，他将返回给你200商会银币"));
}

#[test]
fn test_dui_huan_shang_dian_default() {
    let d = DuiHuanShangDian::default();
    assert_eq!(d.0, vec!["泯灭·黑炎V碎片"]);
}

#[test]
fn test_dui_huan_shang_dian_too_many() {
    let d = DuiHuanShangDian((0..11).map(|i| format!("物品{i}")).collect());
    assert!(d.validate().is_err());
}

#[test]
fn test_dui_huan_shang_dian_duplicate() {
    let d = DuiHuanShangDian(vec!["物品1".to_string(), "物品2".to_string(), "物品1".to_string()]);
    assert!(d.validate().is_err());
}

#[test]
fn test_dui_huan_shang_dian_valid() {
    let d = DuiHuanShangDian(vec!["物品1".to_string(), "物品2".to_string()]);
    assert!(d.validate().is_ok());
}

#[test]
fn test_should_exchange() {
    let d = DuiHuanShangDian(vec!["a".to_string(), "b".to_string()]);
    assert!(d.should_exchange("a"));
    assert!(!d.should_exchange("c"));
}

#[test]
fn defaults_validate() {
    assert!(GlobalConfig::default().validate().is_ok());
    assert!(AccountConfig::default().validate().is_ok());
}

#[test]
fn range_errors_name_their_field() {
    let y = YunXingShi { bing_fa_shu: 0, ri_zhi_bao_liu_tian_shu: 30 };
    match y.validate() {
        Err(ConfigError::OutOfRange { field, min, max, actual }) => {
            assert_eq!(field, "运行时.并发数");
            assert_eq!((min, max, actual), (1, 20, 0));
        }
        other => panic!("unexpected: {other:?}"),
    }
    let copy = ChangMengCopy { qi_cheng_de_mang_lu_ri_chang: 201 };
    assert!(copy.validate().is_err());
    let copy = ChangMengCopy { qi_cheng_de_mang_lu_ri_chang: 200 };
    assert!(copy.validate().is_ok());
    let ex = MenPaiExchange { lian_qi_shi: 21, men_pai_qiang_hua_shu: 0 };
    assert!(ex.validate().is_err());
    let ex = MenPaiExchange { lian_qi_shi: 20, men_pai_qiang_hua_shu: 20 };
    assert!(ex.validate().is_ok());
    let lh = LongHuangYunJi { huang_sui: 0, huang_huo: 17, long_yu: 0, lun_wu_quan: 0 };
    assert!(lh.validate().is_err());
    let cm = ChangMengExchange {
        xuan_tie_ling: 50,
        cui_huo_jie_jing: 50,
        shi_zhong_jian: 50,
        da_xing_wu_qi_fu_zhou: 50,
        zhong_xing_wu_qi_fu_zhou: 50,
        xiao_xing_wu_qi_fu_zhou: 50,
        tou_zhi_wu_qi_fu_zhou: 51,
    };
    assert!(cm.validate().is_err());
    let ld = LueDuo { mu_biao_zhan_li: 100000, zhan_li_zeng_liang: 0 };
    assert!(ld.validate().is_err());
}

#[test]
fn redeem_code_must_be_six_digits() {
    assert!(matches!(DuiHuanMa { code: "12345".to_string() }.validate(), Err(ConfigError::BadRedeemCode(_))));
    assert!(matches!(DuiHuanMa { code: "12345a".to_string() }.validate(), Err(ConfigError::BadRedeemCode(_))));
    assert!(DuiHuanMa { code: "888888".to_string() }.validate().is_ok());
}

#[test]
fn boss_order_errors() {
    let mut order = LiLian::default().le_dou_shun_xu;
    order.pop();
    assert!(matches!(LiLian { le_dou_shun_xu: order }.validate(), Err(ConfigError::BossCount(8))));
    let mut order = LiLian::default().le_dou_shun_xu;
    order[1] = LiLianBoss::XiongShi;
    assert!(matches!(LiLian { le_dou_shun_xu: order }.validate(), Err(ConfigError::DuplicateBoss)));
}

#[test]
fn duplicate_trigrams_carry_ids() {
    let bagua = BaGuaMiZhen { di_yi_ceng: BaGua::Zhen, di_er_ceng: BaGua::Zhen, di_san_ceng: BaGua::Kun, di_si_ceng: BaGua::Li };
    assert!(matches!(bagua.validate(), Err(ConfigError::DuplicateBaGua([7, 7, 2, 1]))));
}

#[test]
fn offering_errors_carry_details() {
    let config = WoDeBangPai { bao_ming: false, gong_feng: (0..41).map(|i| format!("物品{i}")).collect() };
    assert!(matches!(config.validate(), Err(ConfigError::TooManyOfferings(41))));
    let config = WoDeBangPai { bao_ming: false, gong_feng: vec!["ok".to_string(), "".to_string()] };
    match config.validate() {
        Err(ConfigError::BadOffering { index, chars, item }) => {
            assert_eq!((index, chars), (1, 0));
            assert_eq!(item, "");
        }
        other => panic!("unexpected: {other:?}"),
    }
    let d = DuiHuanShangDian((0..11).map(|i| format!("物品{i}")).collect());
    assert!(matches!(d.validate(), Err(ConfigError::TooManyGoods(11))));
    let d = DuiHuanShangDian(vec!["x".to_string(), "x".to_string()]);
    assert!(matches!(d.validate(), Err(ConfigError::DuplicateGoods)));
}

#[test]
fn error_messages_read_as_the_user_sees_them() {
    let y = YunXingShi { bing_fa_shu: 21, ri_zhi_bao_liu_tian_shu: 30 };
    assert_eq!(y.validate().unwrap_err().message(), "运行时.并发数 期望 1~20，实际为 21");
    let ld = LueDuo { mu_biao_zhan_li: 100000, zhan_li_zeng_liang: 0 };
    assert_eq!(ld.validate().unwrap_err().message(), "掠夺.目标战力 期望 0~99999，实际为 100000");
    assert_eq!(
        DuiHuanMa { code: "12345".to_string() }.validate().unwrap_err().message(),
        "兑换码.code 数字字符串长度应为 6，实际为 \"12345\""
    );
    assert_eq!(
        ConfigError::DuplicateBaGua([7, 7, 2, 1]).message(),
        "时空遗迹.八卦迷阵 四层卦象不允许重复，当前：[7, 7, 2, 1]"
    );
    assert_eq!(ConfigError::BossCount(8).message(), "历练.乐斗顺序 必须包含全部 9 个 BOSS，当前 8 个");
    assert_eq!(ConfigError::DuplicateBoss.message(), "历练.乐斗顺序 不允许重复");
    assert_eq!(ConfigError::TooManyGoods(11).message(), "帮派商会.兑换商店 物品上限 10 个，当前 11 个");
    assert_eq!(ConfigError::DuplicateGoods.message(), "帮派商会.兑换商店 物品不允许重复");
    assert_eq!(ConfigError::TooManyOfferings(41).message(), "我的帮派.供奉 期望 0~40 个，当前 41 个");
    assert_eq!(
        ConfigError::BadOffering { index: 12, chars: 16, item: "一二三四五六七八九十一二三四五六".to_string() }.message(),
        "我的帮派.供奉[12] 期望 1~15 字符，实际为 16 字符：\"一二三四五六七八九十一二三四五六\""
    );
    assert_eq!(
        ConfigError::OutOfRange { field: "x", min: 0, max: 4294967295, actual: 0 }.message(),
        "x 期望 0~4294967295，实际为 0"
    );
}

#[test]
fn chars_to_ids_refuses_other_characters() {
    let bagua = BaGuaMiZhen::default();
    assert!(bagua.chars_to_ids("ab乾坤坎离").is_none());
    assert!(bagua.chars_to_ids("乾坤 坎离").is_none());
    assert_eq!(bagua.chars_to_ids("乾坤坎离").unwrap(), vec![4, 2, 5, 1]);
}

#[test]
fn more_switches_keep_every_match() {
    let mut some = all_items(false);
    some.huan_hun_dan = true;
    let all = all_items(true);
    let tip = "教主想要还魂丹*20，他将返回给你200商会银币";
    assert!(some.is_match(tip));
    assert!(all.is_match(tip));
    let other = "教主想要悟性丹*20，他将返回给你200商会银币";
    assert!(!some.is_match(other));
    assert!(all.is_match(other));
    assert!(!JiaoYiHuiSuo::default().is_match(other));
}
