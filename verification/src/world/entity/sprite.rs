//! Sprite directories of the player jobs.

use vstd::prelude::*;

verus! {

/// The directory name under which the body sprites of a player job are stored.
///
/// Jobs that share a sprite (a job and its high or baby form) map to the
/// same name; a job without an entry falls back to the novice.
pub open spec fn sprite_path_for_player_job(job_id: usize) -> &'static str {
    match job_id {
        0 => "초보자", // NOVICE
        1 => "검사", // SWORDMAN
        2 => "마법사", // MAGICIAN
        3 => "궁수", // ARCHER
        4 => "성직자", // ACOLYTE
        5 => "상인", // MERCHANT
        6 => "도둑", // THIEF
        7 => "기사", // KNIGHT
        8 => "프리스트", // PRIEST
        9 => "위저드", // WIZARD
        10 => "제철공", // BLACKSMITH
        11 => "헌터", // HUNTER
        12 => "어세신", // ASSASSIN
        13 => "페코페코_기사", // KNIGHT_MOUNT
        14 => "크루세이더", // CRUSADER
        15 => "몽크", // MONK
        16 => "세이지", // SAGE
        17 => "로그", // ROGUE
        18 => "연금술사", // ALCHEMIST
        19 => "바드", // BARD
        20 => "무희", // DANCER
        21 => "신페코크루세이더", // CRUSADER_MOUNT
        22 => "결혼", // MARRIED
        23 => "슈퍼노비스", // SUPERNOVICE
        24 => "건너", // GUNSLINGER
        25 => "닌자", // NINJA
        26 => "산타", // SANTA
        27 => "여름", // SUMMER
        28 => "한복", // HANBOK
        29 => "옥토버패스트", // OKTOBERFEST
        30 => "여름2", // SUMMER2
        4001 => "초보자", // NOVICE_HIGH
        4002 => "검사", // SWORDMAN_HIGH
        4003 => "마법사", // MAGICIAN_HIGH
        4004 => "궁수", // ARCHER_HIGH
        4005 => "성직자", // ACOLYTE_HIGH
        4006 => "상인", // MERCHANT_HIGH
        4007 => "도둑", // THIEF_HIGH
        4008 => "로드나이트", // LORD_KNIGHT
        4009 => "하이프리", // HIGH_PRIEST
        4010 => "하이위저드", // HIGH_WIZARD
        4011 => "화이트스미스", // WHITESMITH
        4012 => "스나이퍼", // SNIPER
        4013 => "어쌔신크로스", // ASSASSIN_X
        4014 => "로드페코", // LORD_KNIGHT_MOUNT
        4015 => "팔라딘", // PALADIN
        4016 => "챔피온", // CHAMPION
        4017 => "프로페서", // PROFESSOR
        4018 => "스토커", // STALKER
        4019 => "크리에이터", // CREATOR
        4020 => "클라운", // CLOWN
        4021 => "집시", // GYPSY
        4022 => "페코팔라딘", // PALADIN_MOUNT
        4023 => "초보자", // NOVICE_BABY
        4024 => "검사", // SWORDMAN_BABY
        4025 => "마법사", // MAGICIAN_BABY
        4026 => "궁수", // ARCHER_BABY
        4027 => "성직자", // ACOLYTE_BABY
        4028 => "상인", // MERCHANT_BABY
        4029 => "도둑", // THIEF_BABY
        4030 => "기사", // KNIGHT_BABY
        4031 => "프리스트", // PRIEST_BABY
        4032 => "위저드", // WIZARD_BABY
        4033 => "제철공", // BLACKSMITH_BABY
        4034 => "헌터", // HUNTER_BABY
        4035 => "어세신", // ASSASSIN_BABY
        4036 => "페코페코_기사", // KNIGHT_MOUNT_BABY
        4037 => "크루세이더", // CRUSADER_BABY
        4038 => "몽크", // MONK_BABY
        4039 => "세이지", // SAGE_BABY
        4040 => "로그", // ROGUE_BABY
        4041 => "연금술사", // ALCHEMIST_BABY
        4042 => "바드", // BARD_BABY
        4043 => "무희바지", // DANCER_BABY
        4044 => "구페코크루세이더", // CRUSADER_MOUNT_BABY
        4045 => "슈퍼노비스", // SUPERNOVICE_BABY
        4046 => "태권소년", // TAEKWON
        4047 => "권성", // STAR_GLADIATOR
        4048 => "권성융합", // STAR_GLADIATOR_FLY
        4049 => "소울링커", // SOUL_LINKER
        4050 => "성직자", // GANGSI
        4051 => "기사", // DEATHKNIGHT
        4052 => "세이지", // COLLECTOR
        4054 => "룬나이트", // RUNE_KNIGHT
        4055 => "워록", // WARLOCK
        4056 => "레인져", // RANGER
        4057 => "아크비숍", // ARCHBISHOP
        4058 => "미케닉", // MECHANIC
        4059 => "길로틴크로스", // GUILLOTINE_X
        4060 => "룬나이트", // RUNE_KNIGHT_HIGH
        4061 => "워록", // WARLOCK_HIGH
        4062 => "레인져", // RANGER_HIGH
        4063 => "아크비숍", // ARCHBISHOP_HIGH
        4064 => "미케닉", // MECHANIC_H
        4065 => "길로틴크로스", // GUILLOTINE_X_HIGH
        4066 => "가드", // ROYAL_GUARD
        4067 => "소서러", // SORCERER
        4068 => "민스트럴", // MINSTREL
        4069 => "원더러", // WANDERER
        4070 => "슈라", // SURA
        4071 => "제네릭", // GENETIC
        4072 => "쉐도우체이서", // SHADOW_CHASER
        4073 => "가드", // ROYAL_GUARD_HIGH
        4074 => "소서러", // SORCERER_HIGH
        4075 => "민스트럴", // MINSTREL_HIGH
        4076 => "원더러", // WANDERER_HIGH
        4077 => "슈라", // SURA_HIGH
        4078 => "제네릭", // GENETIC_HIGH
        4079 => "쉐도우체이서", // SHADOW_CHASER_HIGH
        4080 => "룬나이트쁘띠", // RUNE_KNIGHT_MOUNT
        4081 => "룬나이트쁘띠", // RUNE_KNIGHT_MOUNT_HIGH
        4082 => "그리폰가드", // ROYAL_GUARD_MOUNT
        4083 => "그리폰가드", // ROYAL_GUARD_MOUNT_HIGH
        4084 => "레인져늑대", // RANGER_MOUNT
        4085 => "레인져늑대", // RANGER_MOUNT_HIGH
        4086 => "마도기어", // MADOGEAR
        4087 => "마도기어", // MADOGEAR_HIGH
        4088 => "룬나이트쁘띠2", // RUNE_KNIGHT_MOUNT2
        4089 => "룬나이트쁘띠2", // RUNE_KNIGHT_MOUNT2_HIGH
        4090 => "룬나이트쁘띠3", // RUNE_KNIGHT_MOUNT3
        4091 => "룬나이트쁘띠3", // RUNE_KNIGHT_MOUNT3_HIGH
        4092 => "룬나이트쁘띠4", // RUNE_KNIGHT_MOUNT4
        4093 => "룬나이트쁘띠4", // RUNE_KNIGHT_MOUNT4_HIGH
        4094 => "룬나이트쁘띠5", // RUNE_KNIGHT_MOUNT5
        4095 => "룬나이트쁘띠5", // RUNE_KNIGHT_MOUNT5_HIGH
        4096 => "룬나이트", // RUNE_KNIGHT_BABY
        4097 => "워록", // WARLOCK_BABY
        4098 => "레인져", // RANGER_BABY
        4099 => "아크비숍", // ARCHBISHOP_BABY
        4100 => "미케닉", // MECHANIC_BABY
        4101 => "길로틴크로스", // GUILLOTINE_X_BABY
        4102 => "가드", // ROYAL_GUARD_BABY
        4103 => "소서러", // SORCERER_BABY
        4104 => "민스트럴", // MINSTREL_BABY
        4105 => "원더러", // WANDERER_BABY
        4106 => "슈라", // SURA_BABY
        4107 => "제네릭", // GENETIC_BABY
        4108 => "쉐도우체이서", // SHADOW_CHASER_BABY
        4109 => "룬나이트쁘띠", // RUNE_KNIGHT_MOUNT_BABY
        4110 => "그리폰가드", // ROYAL_GUARD_MOUNT_BABY
        4111 => "레인져늑대", // RANGER_MOUNT_BABY
        4112 => "마도기어", // MADOGEAR_BABY
        4114 => "두꺼비닌자", // FROG_NINJA
        4115 => "페코건너", // BIKE_GUNNER
        4116 => "페코검사", // PECO_SWORD
        4117 => "두꺼비소울링커", // FROG_LINKER
        4118 => "화이트스미스멧돼지", // PIG_WHITESMITH
        4119 => "상인멧돼지", // PIG_MERCHANT
        4120 => "제네릭멧돼지", // PIG_GENETIC
        4121 => "크리에이터멧돼지", // PIG_CREATOR
        4122 => "타조궁수", // OSTRICH_ARCHER
        4123 => "권성포링", // PORING_STAR
        4124 => "노비스포링", // PORING_NOVICE
        4125 => "몽크알파카", // SHEEP_MONK
        4126 => "복사알파카", // SHEEP_ACOLYTE
        4127 => "슈라알파카", // SHEEP_SURA
        4128 => "슈퍼노비스포링", // PORING_SUPER_NOVICE
        4129 => "아크비숍알파카", // SHEEP_BISHOP
        4130 => "여우마법사", // FOX_MAGICIAN
        4131 => "여우세이지", // FOX_SAGE
        4132 => "여우소서러", // FOX_SORCERER
        4133 => "여우워록", // FOX_WARLOCK
        4134 => "여우위저드", // FOX_WIZARD
        4135 => "여우프로페서", // FOX_PROFESSOR
        4136 => "여우하이위저드", // FOX_HIGH_WIZARD
        4137 => "연금술사멧돼지", // PIG_ALCHEMIST
        4138 => "제철공멧돼지", // PIG_BLACKSMITH
        4139 => "챔피온알파카", // SHEEP_CHAMPION
        4140 => "켈베로스길로틴크로스", // HYENA_GUILLOTINE_CROSS
        4141 => "켈베로스도둑", // HYENA_THIEF
        4142 => "켈베로스로그", // HYENA_ROGUE
        4143 => "켈베로스쉐도우체이서", // HYENA_SHADOW_CHASER
        4144 => "켈베로스스토커", // HYENA_STALKER
        4145 => "켈베로스어쎄신", // HYENA_ASSASSIN
        4146 => "켈베로스어쎄신크로스", // HYENA_ASSASSIN_X
        4147 => "타조무희", // OSTRICH_DANCER
        4148 => "타조민스트럴", // OSTRICH_MINSTREL
        4149 => "타조바드", // OSTRICH_BARD
        4150 => "타조스나이퍼", // OSTRICH_SNIPER
        4151 => "타조원더러", // OSTRICH_WANDERER
        4152 => "타조짚시", // OSTRICH_GYPSY
        4153 => "타조크라운", // OSTRICH_CLOWN
        4154 => "타조헌터", // OSTRICH_HUNTER
        4155 => "태권소년포링", // PORING_TAEKWON
        4156 => "프리스트알파카", // SHEEP_PRIEST
        4157 => "하이프리스트알파카", // SHEEP_HIGH_PRIEST
        4158 => "노비스포링", // PORING_NOVICE_BABY
        4159 => "페코검사", // PECO_SWORD_BABY
        4160 => "여우마법사", // FOX_MAGICIAN_BABY
        4161 => "타조궁수", // OSTRICH_ARCHER_BABY
        4162 => "복사알파카", // SHEEP_ACOLYTE_BABY
        4163 => "상인멧돼지", // PIG_MERCHANT_BABY
        4164 => "타조헌터", // OSTRICH_HUNTER_BABY
        4165 => "켈베로스어쎄신", // HYENA_ASSASSIN_BABY
        4166 => "몽크알파카", // SHEEP_MONK_BABY
        4167 => "여우세이지", // FOX_SAGE_BABY
        4168 => "켈베로스로그", // HYENA_ROGUE_BABY
        4169 => "연금술사멧돼지", // PIG_ALCHEMIST_BABY
        4170 => "타조바드", // OSTRICH_BARD_BABY
        4171 => "타조무희", // OSTRICH_DANCER_BABY
        4172 => "슈퍼노비스포링", // PORING_SUPER_NOVICE_BABY
        4173 => "여우워록", // FOX_WARLOCK_BABY
        4174 => "아크비숍알파카", // SHEEP_BISHOP_BABY
        4175 => "켈베로스길로틴크로스", // HYENA_GUILLOTINE_CROSS_BABY
        4176 => "여우소서러", // FOX_SORCERER_BABY
        4177 => "타조민스트럴", // OSTRICH_MINSTREL_BABY
        4178 => "타조원더러", // OSTRICH_WANDERER_BABY
        4179 => "슈라알파카", // SHEEP_SURA_BABY
        4180 => "제네릭멧돼지", // PIG_GENETIC_BABY
        4181 => "켈베로스도둑", // HYENA_THIEF_BABY
        4182 => "켈베로스쉐도우체이서", // HYENA_SHADOW_CHASER_BABY
        4183 => "노비스포링", // PORING_NOVICE_HIGH
        4184 => "페코검사", // PECO_SWORDMAN_HIGH
        4185 => "여우마법사", // FOX_MAGICIAN_HIGH
        4186 => "타조궁수", // OSTRICH_ARCHER_HIGH
        4187 => "복사알파카", // SHEEP_ACO_HIGH
        4188 => "상인멧돼지", // PIG_MERCHANT_HIGH
        4189 => "켈베로스도둑", // HYENA_THIEF_HIGH
        4190 => "슈퍼노비스", // SUPERNOVICE2
        4191 => "슈퍼노비스", // SUPERNOVICE2_BABY
        4192 => "슈퍼노비스포링", // PORING_SUPER_NOVICE2
        4193 => "슈퍼노비스포링", // PORING_SUPER_NOVICE2_BABY
        4194 => "프리스트알파카", // SHEEP_PRIEST_BABY
        4195 => "여우위저드", // FOX_WIZARD_BABY
        4196 => "제철공멧돼지", // PIG_BLACKSMITH_BABY
        4197 => "미케닉멧돼지", // PIG_MECHANIC
        4198 => "타조레인져", // OSTRICH_RANGER
        4199 => "사자기사", // LION_KNIGHT
        4200 => "사자로드나이트", // LION_LORD_KNIGHT
        4201 => "사자로얄가드", // LION_ROYAL_GUARD
        4202 => "사자룬나이트", // LION_RUNE_KNIGHT
        4203 => "사자크루세이더", // LION_CRUSADER
        4204 => "사자팔라딘", // LION_PALADIN
        4205 => "미케닉멧돼지", // PIG_MECHANIC_BABY
        4206 => "타조레인져", // OSTRICH_RANGER_BABY
        4207 => "사자기사", // LION_KNIGHT_BABY
        4208 => "사자로얄가드", // LION_ROYAL_GUARD_BABY
        4209 => "사자룬나이트", // LION_RUNE_KNIGHT_BABY
        4210 => "사자크루세이더", // LION_CRUSADER_BABY
        4211 => "kagerou", // KAGEROU
        4212 => "oboro", // OBORO
        4213 => "frog_kagerou", // FROG_KAGEROU
        4214 => "frog_oboro", // FROG_OBORO
        4215 => "rebellion", // REBELLION
        4216 => "peco_rebellion", // BIKE_REBELLION
        4218 => "summoner", // SUMMONER
        4219 => "cart_summoner", // SUMMONER_MOUNT
        4220 => "summoner", // SUMMONER_BABY
        4221 => "cart_summoner", // SUMM_MOUNT_BABY
        4222 => "닌자", // NINJA_BABY
        4223 => "kagerou", // KAGEROU_BABY
        4224 => "oboro", // OBORO_BABY
        4225 => "태권소년", // TAEKWON_BABY
        4226 => "권성", // STAR_GLAD_BABY
        4227 => "소울링커", // SOUL_LINKER_BABY
        4228 => "건너", // GUNSLINGER_BABY
        4229 => "rebellion", // REBELLION_BABY
        4230 => "두꺼비닌자", // FROG_NINJA_BABY
        4231 => "frog_kagerou", // FROG_KAGEROU_BABY
        4232 => "frog_oboro", // FROG_OBORO_BABY
        4233 => "태권소년포링", // PORING_TAEKWON_BABY
        4234 => "권성포링", // PORING_STAR_BABY
        4235 => "두꺼비소울링커", // FROG_LINKER_BABY
        4236 => "페코건너", // BIKE_GUNNER_BABY
        4237 => "peco_rebellion", // BIKE_REBELLION_BABY
        4238 => "권성융합", // STAR_GLADIATOR_FLY_BABY
        4239 => "성제", // STAR_EMPEROR
        4240 => "소울리퍼", // SOUL_REAPER
        4241 => "성제", // STAR_EMPEROR_BABY
        4242 => "소울리퍼", // SOUL_REAPER_BABY
        4243 => "성제융합", // STAR_EMPEROR_FLY
        4244 => "성제융합", // STAR_EMPEROR_FLY_BABY
        4245 => "해태성제", // HAETAE_STAR_EMPEROR
        4246 => "해태소울리퍼", // HAETAE_SOUL_REAPER
        4247 => "해태성제", // HAETAE_STAR_EMPEROR_BABY
        4248 => "해태소울리퍼", // HAETAE_SOUL_REAPER_BABY
        4252 => "DRAGON_KNIGHT", // DRAGON_KNIGHT
        4253 => "MEISTER", // MEISTER
        4254 => "SHADOW_CROSS", // SHADOW_CROSS
        4255 => "ARCH_MAGE", // ARCH_MAGE
        4256 => "CARDINAL", // CARDINAL
        4257 => "WINDHAWK", // WINDHAWK
        4258 => "IMPERIAL_GUARD", // IMPERIAL_GUARD
        4259 => "BIOLO", // BIOLO
        4260 => "ABYSS_CHASER", // ABYSS_CHASER
        4261 => "ELEMETAL_MASTER", // ELEMENTAL_MASTER
        4262 => "INQUISITOR", // INQUISITOR
        4263 => "TROUBADOUR", // TROUBADOUR
        4264 => "TROUVERE", // TROUVERE
        4265 => "DRAGON_KNIGHT_RIDING", // LION_DRAGON_KNIGHT
        4266 => "MEISTER_RIDING", // PIG_MEISTER
        4267 => "SHADOW_CROSS_RIDING", // HYENA_SHADOW_CROSS
        4268 => "ARCH_MAGE_RIDING", // FOX_ARCH_MAGE
        4269 => "CARDINAL_RIDING", // SHEEP_CARDINAL
        4270 => "WINDHAWK_RIDING", // OSTRICH_WINDHAWK
        4271 => "IMPERIAL_GUARD_RIDING", // LION_IMPERIAL_GUARD
        4272 => "BIOLO_RIDING", // PIG_BIOLO
        4273 => "ABYSS_CHASER_RIDING", // HYENA_ABYSS_CHASER
        4274 => "ELEMETAL_MASTER_RIDING", // FOX_ELEMENT_MASTER
        4275 => "INQUISITOR_RIDING", // SHEEP_INQUISITOR
        4276 => "TROUBADOUR_RIDING", // OSTRICH_TROUBADOUR
        4277 => "TROUVERE_RIDING", // OSTRICH_TROUVERE
        4278 => "WOLF_WINDHAWK", // WINDHAWK_MOUNT
        4279 => "MEISTER_MADOGEAR1", // MEISTER_MADOGEAR
        4280 => "DRAGON_KNIGHT_CHICKEN", // DRAGON_KNIGHT_MOUNT
        4281 => "IMPERIAL_GUARD_CHICKEN", // IMPERIAL_GUARD_MOUNT
        4302 => "SKY_EMPEROR", // SKY_EMPEROR
        4303 => "SOUL_ASCETIC", // SOUL_ASCETIC
        4304 => "SHINKIRO", // SHINKIRO
        4305 => "SHIRANUI", // SHIRANUI
        4306 => "NIGHT_WATCH", // NIGHT_WATCH
        4307 => "HYPER_NOVICE", // HYPER_NOVICE
        4308 => "SPIRIT_HANDLER", // SPIRIT_HANDLER
        4309 => "SKY_EMPEROR_RIDING", // HAETAE_SKY_EMPEROR
        4310 => "SOUL_ASCETIC_RIDING", // HAETAE_SOUL_ASCETIC
        4311 => "SHINKIRO_RIDING", // FROG_SHINKIRO
        4312 => "SHIRANUI_RIDING", // FROG_SHIRANUI
        4313 => "NIGHT_WATCH_RIDING", // BIKE_NIGHT_WATCH
        4314 => "HYPER_NOVICE_RIDING", // PORING_HYPER_NOVICE
        4315 => "SPIRIT_HANDLER_RIDING", // SPIRIT_HANDLER_MOUNT
        4316 => "SKY_EMPEROR2", // SKY_EMPEROR_FLY
        _ => "초보자",
    }
}

/// Looks up the sprite directory name of a player job.
pub fn get_sprite_path_for_player_job(job_id: usize) -> (path: &'static str)
    ensures
        path == sprite_path_for_player_job(job_id),
{
    match job_id {
        0 => "초보자", // NOVICE
        1 => "검사", // SWORDMAN
        2 => "마법사", // MAGICIAN
        3 => "궁수", // ARCHER
        4 => "성직자", // ACOLYTE
        5 => "상인", // MERCHANT
        6 => "도둑", // THIEF
        7 => "기사", // KNIGHT
        8 => "프리스트", // PRIEST
        9 => "위저드", // WIZARD
        10 => "제철공", // BLACKSMITH
        11 => "헌터", // HUNTER
        12 => "어세신", // ASSASSIN
        13 => "페코페코_기사", // KNIGHT_MOUNT
        14 => "크루세이더", // CRUSADER
        15 => "몽크", // MONK
        16 => "세이지", // SAGE
        17 => "로그", // ROGUE
        18 => "연금술사", // ALCHEMIST
        19 => "바드", // BARD
        20 => "무희", // DANCER
        21 => "신페코크루세이더", // CRUSADER_MOUNT
        22 => "결혼", // MARRIED
        23 => "슈퍼노비스", // SUPERNOVICE
        24 => "건너", // GUNSLINGER
        25 => "닌자", // NINJA
        26 => "산타", // SANTA
        27 => "여름", // SUMMER
        28 => "한복", // HANBOK
        29 => "옥토버패스트", // OKTOBERFEST
        30 => "여름2", // SUMMER2
        4001 => "초보자", // NOVICE_HIGH
        4002 => "검사", // SWORDMAN_HIGH
        4003 => "마법사", // MAGICIAN_HIGH
        4004 => "궁수", // ARCHER_HIGH
        4005 => "성직자", // ACOLYTE_HIGH
        4006 => "상인", // MERCHANT_HIGH
        4007 => "도둑", // THIEF_HIGH
        4008 => "로드나이트", // LORD_KNIGHT
        4009 => "하이프리", // HIGH_PRIEST
        4010 => "하이위저드", // HIGH_WIZARD
        4011 => "화이트스미스", // WHITESMITH
        4012 => "스나이퍼", // SNIPER
        4013 => "어쌔신크로스", // ASSASSIN_X
        4014 => "로드페코", // LORD_KNIGHT_MOUNT
        4015 => "팔라딘", // PALADIN
        4016 => "챔피온", // CHAMPION
        4017 => "프로페서", // PROFESSOR
        4018 => "스토커", // STALKER
        4019 => "크리에이터", // CREATOR
        4020 => "클라운", // CLOWN
        4021 => "집시", // GYPSY
        4022 => "페코팔라딘", // PALADIN_MOUNT
        4023 => "초보자", // NOVICE_BABY
        4024 => "검사", // SWORDMAN_BABY
        4025 => "마법사", // MAGICIAN_BABY
        4026 => "궁수", // ARCHER_BABY
        4027 => "성직자", // ACOLYTE_BABY
        4028 => "상인", // MERCHANT_BABY
        4029 => "도둑", // THIEF_BABY
        4030 => "기사", // KNIGHT_BABY
        4031 => "프리스트", // PRIEST_BABY
        4032 => "위저드", // WIZARD_BABY
        4033 => "제철공", // BLACKSMITH_BABY
        4034 => "헌터", // HUNTER_BABY
        4035 => "어세신", // ASSASSIN_BABY
        4036 => "페코페코_기사", // KNIGHT_MOUNT_BABY
        4037 => "크루세이더", // CRUSADER_BABY
        4038 => "몽크", // MONK_BABY
        4039 => "세이지", // SAGE_BABY
        4040 => "로그", // ROGUE_BABY
        4041 => "연금술사", // ALCHEMIST_BABY
        4042 => "바드", // BARD_BABY
        4043 => "무희바지", // DANCER_BABY
        4044 => "구페코크루세이더", // CRUSADER_MOUNT_BABY
        4045 => "슈퍼노비스", // SUPERNOVICE_BABY
        4046 => "태권소년", // TAEKWON
        4047 => "권성", // STAR_GLADIATOR
        4048 => "권성융합", // STAR_GLADIATOR_FLY
        4049 => "소울링커", // SOUL_LINKER
        4050 => "성직자", // GANGSI
        4051 => "기사", // DEATHKNIGHT
        4052 => "세이지", // COLLECTOR
        4054 => "룬나이트", // RUNE_KNIGHT
        4055 => "워록", // WARLOCK
        4056 => "레인져", // RANGER
        4057 => "아크비숍", // ARCHBISHOP
        4058 => "미케닉", // MECHANIC
        4059 => "길로틴크로스", // GUILLOTINE_X
        4060 => "룬나이트", // RUNE_KNIGHT_HIGH
        4061 => "워록", // WARLOCK_HIGH
        4062 => "레인져", // RANGER_HIGH
        4063 => "아크비숍", // ARCHBISHOP_HIGH
        4064 => "미케닉", // MECHANIC_H
        4065 => "길로틴크로스", // GUILLOTINE_X_HIGH
        4066 => "가드", // ROYAL_GUARD
        4067 => "소서러", // SORCERER
        4068 => "민스트럴", // MINSTREL
        4069 => "원더러", // WANDERER
        4070 => "슈라", // SURA
        4071 => "제네릭", // GENETIC
        4072 => "쉐도우체이서", // SHADOW_CHASER
        4073 => "가드", // ROYAL_GUARD_HIGH
        4074 => "소서러", // SORCERER_HIGH
        4075 => "민스트럴", // MINSTREL_HIGH
        4076 => "원더러", // WANDERER_HIGH
        4077 => "슈라", // SURA_HIGH
        4078 => "제네릭", // GENETIC_HIGH
        4079 => "쉐도우체이서", // SHADOW_CHASER_HIGH
        4080 => "룬나이트쁘띠", // RUNE_KNIGHT_MOUNT
        4081 => "룬나이트쁘띠", // RUNE_KNIGHT_MOUNT_HIGH
        4082 => "그리폰가드", // ROYAL_GUARD_MOUNT
        4083 => "그리폰가드", // ROYAL_GUARD_MOUNT_HIGH
        4084 => "레인져늑대", // RANGER_MOUNT
        4085 => "레인져늑대", // RANGER_MOUNT_HIGH
        4086 => "마도기어", // MADOGEAR
        4087 => "마도기어", // MADOGEAR_HIGH
        4088 => "룬나이트쁘띠2", // RUNE_KNIGHT_MOUNT2
        4089 => "룬나이트쁘띠2", // RUNE_KNIGHT_MOUNT2_HIGH
        4090 => "룬나이트쁘띠3", // RUNE_KNIGHT_MOUNT3
        4091 => "룬나이트쁘띠3", // RUNE_KNIGHT_MOUNT3_HIGH
        4092 => "룬나이트쁘띠4", // RUNE_KNIGHT_MOUNT4
        4093 => "룬나이트쁘띠4", // RUNE_KNIGHT_MOUNT4_HIGH
        4094 => "룬나이트쁘띠5", // RUNE_KNIGHT_MOUNT5
        4095 => "룬나이트쁘띠5", // RUNE_KNIGHT_MOUNT5_HIGH
        4096 => "룬나이트", // RUNE_KNIGHT_BABY
        4097 => "워록", // WARLOCK_BABY
        4098 => "레인져", // RANGER_BABY
        4099 => "아크비숍", // ARCHBISHOP_BABY
        4100 => "미케닉", // MECHANIC_BABY
        4101 => "길로틴크로스", // GUILLOTINE_X_BABY
        4102 => "가드", // ROYAL_GUARD_BABY
        4103 => "소서러", // SORCERER_BABY
        4104 => "민스트럴", // MINSTREL_BABY
        4105 => "원더러", // WANDERER_BABY
        4106 => "슈라", // SURA_BABY
        4107 => "제네릭", // GENETIC_BABY
        4108 => "쉐도우체이서", // SHADOW_CHASER_BABY
        4109 => "룬나이트쁘띠", // RUNE_KNIGHT_MOUNT_BABY
        4110 => "그리폰가드", // ROYAL_GUARD_MOUNT_BABY
        4111 => "레인져늑대", // RANGER_MOUNT_BABY
        4112 => "마도기어", // MADOGEAR_BABY
        4114 => "두꺼비닌자", // FROG_NINJA
        4115 => "페코건너", // BIKE_GUNNER
        4116 => "페코검사", // PECO_SWORD
        4117 => "두꺼비소울링커", // FROG_LINKER
        4118 => "화이트스미스멧돼지", // PIG_WHITESMITH
        4119 => "상인멧돼지", // PIG_MERCHANT
        4120 => "제네릭멧돼지", // PIG_GENETIC
        4121 => "크리에이터멧돼지", // PIG_CREATOR
        4122 => "타조궁수", // OSTRICH_ARCHER
        4123 => "권성포링", // PORING_STAR
        4124 => "노비스포링", // PORING_NOVICE
        4125 => "몽크알파카", // SHEEP_MONK
        4126 => "복사알파카", // SHEEP_ACOLYTE
        4127 => "슈라알파카", // SHEEP_SURA
        4128 => "슈퍼노비스포링", // PORING_SUPER_NOVICE
        4129 => "아크비숍알파카", // SHEEP_BISHOP
        4130 => "여우마법사", // FOX_MAGICIAN
        4131 => "여우세이지", // FOX_SAGE
        4132 => "여우소서러", // FOX_SORCERER
        4133 => "여우워록", // FOX_WARLOCK
        4134 => "여우위저드", // FOX_WIZARD
        4135 => "여우프로페서", // FOX_PROFESSOR
        4136 => "여우하이위저드", // FOX_HIGH_WIZARD
        4137 => "연금술사멧돼지", // PIG_ALCHEMIST
        4138 => "제철공멧돼지", // PIG_BLACKSMITH
        4139 => "챔피온알파카", // SHEEP_CHAMPION
        4140 => "켈베로스길로틴크로스", // HYENA_GUILLOTINE_CROSS
        4141 => "켈베로스도둑", // HYENA_THIEF
        4142 => "켈베로스로그", // HYENA_ROGUE
        4143 => "켈베로스쉐도우체이서", // HYENA_SHADOW_CHASER
        4144 => "켈베로스스토커", // HYENA_STALKER
        4145 => "켈베로스어쎄신", // HYENA_ASSASSIN
        4146 => "켈베로스어쎄신크로스", // HYENA_ASSASSIN_X
        4147 => "타조무희", // OSTRICH_DANCER
        4148 => "타조민스트럴", // OSTRICH_MINSTREL
        4149 => "타조바드", // OSTRICH_BARD
        4150 => "타조스나이퍼", // OSTRICH_SNIPER
        4151 => "타조원더러", // OSTRICH_WANDERER
        4152 => "타조짚시", // OSTRICH_GYPSY
        4153 => "타조크라운", // OSTRICH_CLOWN
        4154 => "타조헌터", // OSTRICH_HUNTER
        4155 => "태권소년포링", // PORING_TAEKWON
        4156 => "프리스트알파카", // SHEEP_PRIEST
        4157 => "하이프리스트알파카", // SHEEP_HIGH_PRIEST
        4158 => "노비스포링", // PORING_NOVICE_BABY
        4159 => "페코검사", // PECO_SWORD_BABY
        4160 => "여우마법사", // FOX_MAGICIAN_BABY
        4161 => "타조궁수", // OSTRICH_ARCHER_BABY
        4162 => "복사알파카", // SHEEP_ACOLYTE_BABY
        4163 => "상인멧돼지", // PIG_MERCHANT_BABY
        4164 => "타조헌터", // OSTRICH_HUNTER_BABY
        4165 => "켈베로스어쎄신", // HYENA_ASSASSIN_BABY
        4166 => "몽크알파카", // SHEEP_MONK_BABY
        4167 => "여우세이지", // FOX_SAGE_BABY
        4168 => "켈베로스로그", // HYENA_ROGUE_BABY
        4169 => "연금술사멧돼지", // PIG_ALCHEMIST_BABY
        4170 => "타조바드", // OSTRICH_BARD_BABY
        4171 => "타조무희", // OSTRICH_DANCER_BABY
        4172 => "슈퍼노비스포링", // PORING_SUPER_NOVICE_BABY
        4173 => "여우워록", // FOX_WARLOCK_BABY
        4174 => "아크비숍알파카", // SHEEP_BISHOP_BABY
        4175 => "켈베로스길로틴크로스", // HYENA_GUILLOTINE_CROSS_BABY
        4176 => "여우소서러", // FOX_SORCERER_BABY
        4177 => "타조민스트럴", // OSTRICH_MINSTREL_BABY
        4178 => "타조원더러", // OSTRICH_WANDERER_BABY
        4179 => "슈라알파카", // SHEEP_SURA_BABY
        4180 => "제네릭멧돼지", // PIG_GENETIC_BABY
        4181 => "켈베로스도둑", // HYENA_THIEF_BABY
        4182 => "켈베로스쉐도우체이서", // HYENA_SHADOW_CHASER_BABY
        4183 => "노비스포링", // PORING_NOVICE_HIGH
        4184 => "페코검사", // PECO_SWORDMAN_HIGH
        4185 => "여우마법사", // FOX_MAGICIAN_HIGH
        4186 => "타조궁수", // OSTRICH_ARCHER_HIGH
        4187 => "복사알파카", // SHEEP_ACO_HIGH
        4188 => "상인멧돼지", // PIG_MERCHANT_HIGH
        4189 => "켈베로스도둑", // HYENA_THIEF_HIGH
        4190 => "슈퍼노비스", // SUPERNOVICE2
        4191 => "슈퍼노비스", // SUPERNOVICE2_BABY
        4192 => "슈퍼노비스포링", // PORING_SUPER_NOVICE2
        4193 => "슈퍼노비스포링", // PORING_SUPER_NOVICE2_BABY
        4194 => "프리스트알파카", // SHEEP_PRIEST_BABY
        4195 => "여우위저드", // FOX_WIZARD_BABY
        4196 => "제철공멧돼지", // PIG_BLACKSMITH_BABY
        4197 => "미케닉멧돼지", // PIG_MECHANIC
        4198 => "타조레인져", // OSTRICH_RANGER
        4199 => "사자기사", // LION_KNIGHT
        4200 => "사자로드나이트", // LION_LORD_KNIGHT
        4201 => "사자로얄가드", // LION_ROYAL_GUARD
        4202 => "사자룬나이트", // LION_RUNE_KNIGHT
        4203 => "사자크루세이더", // LION_CRUSADER
        4204 => "사자팔라딘", // LION_PALADIN
        4205 => "미케닉멧돼지", // PIG_MECHANIC_BABY
        4206 => "타조레인져", // OSTRICH_RANGER_BABY
        4207 => "사자기사", // LION_KNIGHT_BABY
        4208 => "사자로얄가드", // LION_ROYAL_GUARD_BABY
        4209 => "사자룬나이트", // LION_RUNE_KNIGHT_BABY
        4210 => "사자크루세이더", // LION_CRUSADER_BABY
        4211 => "kagerou", // KAGEROU
        4212 => "oboro", // OBORO
        4213 => "frog_kagerou", // FROG_KAGEROU
        4214 => "frog_oboro", // FROG_OBORO
        4215 => "rebellion", // REBELLION
        4216 => "peco_rebellion", // BIKE_REBELLION
        4218 => "summoner", // SUMMONER
        4219 => "cart_summoner", // SUMMONER_MOUNT
        4220 => "summoner", // SUMMONER_BABY
        4221 => "cart_summoner", // SUMM_MOUNT_BABY
        4222 => "닌자", // NINJA_BABY
        4223 => "kagerou", // KAGEROU_BABY
        4224 => "oboro", // OBORO_BABY
        4225 => "태권소년", // TAEKWON_BABY
        4226 => "권성", // STAR_GLAD_BABY
        4227 => "소울링커", // SOUL_LINKER_BABY
        4228 => "건너", // GUNSLINGER_BABY
        4229 => "rebellion", // REBELLION_BABY
        4230 => "두꺼비닌자", // FROG_NINJA_BABY
        4231 => "frog_kagerou", // FROG_KAGEROU_BABY
        4232 => "frog_oboro", // FROG_OBORO_BABY
        4233 => "태권소년포링", // PORING_TAEKWON_BABY
        4234 => "권성포링", // PORING_STAR_BABY
        4235 => "두꺼비소울링커", // FROG_LINKER_BABY
        4236 => "페코건너", // BIKE_GUNNER_BABY
        4237 => "peco_rebellion", // BIKE_REBELLION_BABY
        4238 => "권성융합", // STAR_GLADIATOR_FLY_BABY
        4239 => "성제", // STAR_EMPEROR
        4240 => "소울리퍼", // SOUL_REAPER
        4241 => "성제", // STAR_EMPEROR_BABY
        4242 => "소울리퍼", // SOUL_REAPER_BABY
        4243 => "성제융합", // STAR_EMPEROR_FLY
        4244 => "성제융합", // STAR_EMPEROR_FLY_BABY
        4245 => "해태성제", // HAETAE_STAR_EMPEROR
        4246 => "해태소울리퍼", // HAETAE_SOUL_REAPER
        4247 => "해태성제", // HAETAE_STAR_EMPEROR_BABY
        4248 => "해태소울리퍼", // HAETAE_SOUL_REAPER_BABY
        4252 => "DRAGON_KNIGHT", // DRAGON_KNIGHT
        4253 => "MEISTER", // MEISTER
        4254 => "SHADOW_CROSS", // SHADOW_CROSS
        4255 => "ARCH_MAGE", // ARCH_MAGE
        4256 => "CARDINAL", // CARDINAL
        4257 => "WINDHAWK", // WINDHAWK
        4258 => "IMPERIAL_GUARD", // IMPERIAL_GUARD
        4259 => "BIOLO", // BIOLO
        4260 => "ABYSS_CHASER", // ABYSS_CHASER
        4261 => "ELEMETAL_MASTER", // ELEMENTAL_MASTER
        4262 => "INQUISITOR", // INQUISITOR
        4263 => "TROUBADOUR", // TROUBADOUR
        4264 => "TROUVERE", // TROUVERE
        4265 => "DRAGON_KNIGHT_RIDING", // LION_DRAGON_KNIGHT
        4266 => "MEISTER_RIDING", // PIG_MEISTER
        4267 => "SHADOW_CROSS_RIDING", // HYENA_SHADOW_CROSS
        4268 => "ARCH_MAGE_RIDING", // FOX_ARCH_MAGE
        4269 => "CARDINAL_RIDING", // SHEEP_CARDINAL
        4270 => "WINDHAWK_RIDING", // OSTRICH_WINDHAWK
        4271 => "IMPERIAL_GUARD_RIDING", // LION_IMPERIAL_GUARD
        4272 => "BIOLO_RIDING", // PIG_BIOLO
        4273 => "ABYSS_CHASER_RIDING", // HYENA_ABYSS_CHASER
        4274 => "ELEMETAL_MASTER_RIDING", // FOX_ELEMENT_MASTER
        4275 => "INQUISITOR_RIDING", // SHEEP_INQUISITOR
        4276 => "TROUBADOUR_RIDING", // OSTRICH_TROUBADOUR
        4277 => "TROUVERE_RIDING", // OSTRICH_TROUVERE
        4278 => "WOLF_WINDHAWK", // WINDHAWK_MOUNT
        4279 => "MEISTER_MADOGEAR1", // MEISTER_MADOGEAR
        4280 => "DRAGON_KNIGHT_CHICKEN", // DRAGON_KNIGHT_MOUNT
        4281 => "IMPERIAL_GUARD_CHICKEN", // IMPERIAL_GUARD_MOUNT
        4302 => "SKY_EMPEROR", // SKY_EMPEROR
        4303 => "SOUL_ASCETIC", // SOUL_ASCETIC
        4304 => "SHINKIRO", // SHINKIRO
        4305 => "SHIRANUI", // SHIRANUI
        4306 => "NIGHT_WATCH", // NIGHT_WATCH
        4307 => "HYPER_NOVICE", // HYPER_NOVICE
        4308 => "SPIRIT_HANDLER", // SPIRIT_HANDLER
        4309 => "SKY_EMPEROR_RIDING", // HAETAE_SKY_EMPEROR
        4310 => "SOUL_ASCETIC_RIDING", // HAETAE_SOUL_ASCETIC
        4311 => "SHINKIRO_RIDING", // FROG_SHINKIRO
        4312 => "SHIRANUI_RIDING", // FROG_SHIRANUI
        4313 => "NIGHT_WATCH_RIDING", // BIKE_NIGHT_WATCH
        4314 => "HYPER_NOVICE_RIDING", // PORING_HYPER_NOVICE
        4315 => "SPIRIT_HANDLER_RIDING", // SPIRIT_HANDLER_MOUNT
        4316 => "SKY_EMPEROR2", // SKY_EMPEROR_FLY
        _ => "초보자",
    }
}

} // verus!
