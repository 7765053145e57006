//! The transfer curve between the fraction that an 8-bit channel stands for
//! and its linear intensity, in whole numbers.
//!
//! A channel value `c` stands for the fraction `v = c / 255`. Its linear
//! intensity is `v / 12.92` up to `v = 0.04045` and `((v + 0.055) / 1.055)^2.4`
//! above. The exponent is `12 / 5`, so a number of millionths `g` is the
//! intensity of `c > 10`, rounded down, exactly when
//! `g^5 <= (10^6)^5 * u^12 < (g + 1)^5` with `u = (40 * c + 561) / 10761`, which
//! is `(v + 0.055) / 1.055` in lowest terms.

use vstd::prelude::*;

verus! {

/// `x^5`.
pub open spec fn fifth_power(x: int) -> int {
    x * x * x * x * x
}

/// `x^12`.
pub open spec fn twelfth_power(x: int) -> int {
    let cube = x * x * x;
    let sixth = cube * cube;
    sixth * sixth
}

/// `g` is what the transfer curve gives for channel value `c`, in
/// millionths, rounded down.
pub open spec fn is_linear_intensity(c: int, g: int) -> bool {
    if c <= 10 {
        g == (10_000_000 * c) / 32946
    } else {
        &&& 0 <= g
        &&& fifth_power(g) * twelfth_power(10761) <= fifth_power(1_000_000) * twelfth_power(
            40 * c + 561,
        )
        &&& fifth_power(1_000_000) * twelfth_power(40 * c + 561) < fifth_power(g + 1)
            * twelfth_power(10761)
    }
}

/// What the transfer curve gives for the channel values from 11 to 45.
pub proof fn lemma_curve_11_to_45()
    ensures
        is_linear_intensity(11, 3346),
        is_linear_intensity(12, 3676),
        is_linear_intensity(13, 4024),
        is_linear_intensity(14, 4391),
        is_linear_intensity(15, 4776),
        is_linear_intensity(16, 5181),
        is_linear_intensity(17, 5605),
        is_linear_intensity(18, 6048),
        is_linear_intensity(19, 6512),
        is_linear_intensity(20, 6995),
        is_linear_intensity(21, 7499),
        is_linear_intensity(22, 8023),
        is_linear_intensity(23, 8568),
        is_linear_intensity(24, 9134),
        is_linear_intensity(25, 9721),
        is_linear_intensity(26, 10329),
        is_linear_intensity(27, 10960),
        is_linear_intensity(28, 11612),
        is_linear_intensity(29, 12286),
        is_linear_intensity(30, 12983),
        is_linear_intensity(31, 13702),
        is_linear_intensity(32, 14443),
        is_linear_intensity(33, 15208),
        is_linear_intensity(34, 15996),
        is_linear_intensity(35, 16807),
        is_linear_intensity(36, 17641),
        is_linear_intensity(37, 18500),
        is_linear_intensity(38, 19382),
        is_linear_intensity(39, 20288),
        is_linear_intensity(40, 21219),
        is_linear_intensity(41, 22173),
        is_linear_intensity(42, 23153),
        is_linear_intensity(43, 24157),
        is_linear_intensity(44, 25186),
        is_linear_intensity(45, 26241),
{{
    assert(is_linear_intensity(11, 3346)) by (nonlinear_arith);
    assert(is_linear_intensity(12, 3676)) by (nonlinear_arith);
    assert(is_linear_intensity(13, 4024)) by (nonlinear_arith);
    assert(is_linear_intensity(14, 4391)) by (nonlinear_arith);
    assert(is_linear_intensity(15, 4776)) by (nonlinear_arith);
    assert(is_linear_intensity(16, 5181)) by (nonlinear_arith);
    assert(is_linear_intensity(17, 5605)) by (nonlinear_arith);
    assert(is_linear_intensity(18, 6048)) by (nonlinear_arith);
    assert(is_linear_intensity(19, 6512)) by (nonlinear_arith);
    assert(is_linear_intensity(20, 6995)) by (nonlinear_arith);
    assert(is_linear_intensity(21, 7499)) by (nonlinear_arith);
    assert(is_linear_intensity(22, 8023)) by (nonlinear_arith);
    assert(is_linear_intensity(23, 8568)) by (nonlinear_arith);
    assert(is_linear_intensity(24, 9134)) by (nonlinear_arith);
    assert(is_linear_intensity(25, 9721)) by (nonlinear_arith);
    assert(is_linear_intensity(26, 10329)) by (nonlinear_arith);
    assert(is_linear_intensity(27, 10960)) by (nonlinear_arith);
    assert(is_linear_intensity(28, 11612)) by (nonlinear_arith);
    assert(is_linear_intensity(29, 12286)) by (nonlinear_arith);
    assert(is_linear_intensity(30, 12983)) by (nonlinear_arith);
    assert(is_linear_intensity(31, 13702)) by (nonlinear_arith);
    assert(is_linear_intensity(32, 14443)) by (nonlinear_arith);
    assert(is_linear_intensity(33, 15208)) by (nonlinear_arith);
    assert(is_linear_intensity(34, 15996)) by (nonlinear_arith);
    assert(is_linear_intensity(35, 16807)) by (nonlinear_arith);
    assert(is_linear_intensity(36, 17641)) by (nonlinear_arith);
    assert(is_linear_intensity(37, 18500)) by (nonlinear_arith);
    assert(is_linear_intensity(38, 19382)) by (nonlinear_arith);
    assert(is_linear_intensity(39, 20288)) by (nonlinear_arith);
    assert(is_linear_intensity(40, 21219)) by (nonlinear_arith);
    assert(is_linear_intensity(41, 22173)) by (nonlinear_arith);
    assert(is_linear_intensity(42, 23153)) by (nonlinear_arith);
    assert(is_linear_intensity(43, 24157)) by (nonlinear_arith);
    assert(is_linear_intensity(44, 25186)) by (nonlinear_arith);
    assert(is_linear_intensity(45, 26241)) by (nonlinear_arith);
}}

/// What the transfer curve gives for the channel values from 46 to 80.
pub proof fn lemma_curve_46_to_80()
    ensures
        is_linear_intensity(46, 27320),
        is_linear_intensity(47, 28426),
        is_linear_intensity(48, 29556),
        is_linear_intensity(49, 30713),
        is_linear_intensity(50, 31896),
        is_linear_intensity(51, 33104),
        is_linear_intensity(52, 34339),
        is_linear_intensity(53, 35601),
        is_linear_intensity(54, 36889),
        is_linear_intensity(55, 38204),
        is_linear_intensity(56, 39546),
        is_linear_intensity(57, 40915),
        is_linear_intensity(58, 42311),
        is_linear_intensity(59, 43735),
        is_linear_intensity(60, 45186),
        is_linear_intensity(61, 46665),
        is_linear_intensity(62, 48171),
        is_linear_intensity(63, 49706),
        is_linear_intensity(64, 51269),
        is_linear_intensity(65, 52860),
        is_linear_intensity(66, 54480),
        is_linear_intensity(67, 56128),
        is_linear_intensity(68, 57805),
        is_linear_intensity(69, 59511),
        is_linear_intensity(70, 61246),
        is_linear_intensity(71, 63010),
        is_linear_intensity(72, 64803),
        is_linear_intensity(73, 66625),
        is_linear_intensity(74, 68478),
        is_linear_intensity(75, 70360),
        is_linear_intensity(76, 72271),
        is_linear_intensity(77, 74213),
        is_linear_intensity(78, 76185),
        is_linear_intensity(79, 78187),
        is_linear_intensity(80, 80219),
{{
    assert(is_linear_intensity(46, 27320)) by (nonlinear_arith);
    assert(is_linear_intensity(47, 28426)) by (nonlinear_arith);
    assert(is_linear_intensity(48, 29556)) by (nonlinear_arith);
    assert(is_linear_intensity(49, 30713)) by (nonlinear_arith);
    assert(is_linear_intensity(50, 31896)) by (nonlinear_arith);
    assert(is_linear_intensity(51, 33104)) by (nonlinear_arith);
    assert(is_linear_intensity(52, 34339)) by (nonlinear_arith);
    assert(is_linear_intensity(53, 35601)) by (nonlinear_arith);
    assert(is_linear_intensity(54, 36889)) by (nonlinear_arith);
    assert(is_linear_intensity(55, 38204)) by (nonlinear_arith);
    assert(is_linear_intensity(56, 39546)) by (nonlinear_arith);
    assert(is_linear_intensity(57, 40915)) by (nonlinear_arith);
    assert(is_linear_intensity(58, 42311)) by (nonlinear_arith);
    assert(is_linear_intensity(59, 43735)) by (nonlinear_arith);
    assert(is_linear_intensity(60, 45186)) by (nonlinear_arith);
    assert(is_linear_intensity(61, 46665)) by (nonlinear_arith);
    assert(is_linear_intensity(62, 48171)) by (nonlinear_arith);
    assert(is_linear_intensity(63, 49706)) by (nonlinear_arith);
    assert(is_linear_intensity(64, 51269)) by (nonlinear_arith);
    assert(is_linear_intensity(65, 52860)) by (nonlinear_arith);
    assert(is_linear_intensity(66, 54480)) by (nonlinear_arith);
    assert(is_linear_intensity(67, 56128)) by (nonlinear_arith);
    assert(is_linear_intensity(68, 57805)) by (nonlinear_arith);
    assert(is_linear_intensity(69, 59511)) by (nonlinear_arith);
    assert(is_linear_intensity(70, 61246)) by (nonlinear_arith);
    assert(is_linear_intensity(71, 63010)) by (nonlinear_arith);
    assert(is_linear_intensity(72, 64803)) by (nonlinear_arith);
    assert(is_linear_intensity(73, 66625)) by (nonlinear_arith);
    assert(is_linear_intensity(74, 68478)) by (nonlinear_arith);
    assert(is_linear_intensity(75, 70360)) by (nonlinear_arith);
    assert(is_linear_intensity(76, 72271)) by (nonlinear_arith);
    assert(is_linear_intensity(77, 74213)) by (nonlinear_arith);
    assert(is_linear_intensity(78, 76185)) by (nonlinear_arith);
    assert(is_linear_intensity(79, 78187)) by (nonlinear_arith);
    assert(is_linear_intensity(80, 80219)) by (nonlinear_arith);
}}

/// What the transfer curve gives for the channel values from 81 to 115.
pub proof fn lemma_curve_81_to_115()
    ensures
        is_linear_intensity(81, 82282),
        is_linear_intensity(82, 84376),
        is_linear_intensity(83, 86500),
        is_linear_intensity(84, 88655),
        is_linear_intensity(85, 90841),
        is_linear_intensity(86, 93058),
        is_linear_intensity(87, 95307),
        is_linear_intensity(88, 97587),
        is_linear_intensity(89, 99898),
        is_linear_intensity(90, 102241),
        is_linear_intensity(91, 104616),
        is_linear_intensity(92, 107023),
        is_linear_intensity(93, 109461),
        is_linear_intensity(94, 111932),
        is_linear_intensity(95, 114435),
        is_linear_intensity(96, 116970),
        is_linear_intensity(97, 119538),
        is_linear_intensity(98, 122138),
        is_linear_intensity(99, 124771),
        is_linear_intensity(100, 127437),
        is_linear_intensity(101, 130136),
        is_linear_intensity(102, 132868),
        is_linear_intensity(103, 135633),
        is_linear_intensity(104, 138431),
        is_linear_intensity(105, 141263),
        is_linear_intensity(106, 144128),
        is_linear_intensity(107, 147027),
        is_linear_intensity(108, 149959),
        is_linear_intensity(109, 152926),
        is_linear_intensity(110, 155926),
        is_linear_intensity(111, 158960),
        is_linear_intensity(112, 162029),
        is_linear_intensity(113, 165132),
        is_linear_intensity(114, 168269),
        is_linear_intensity(115, 171441),
{{
    assert(is_linear_intensity(81, 82282)) by (nonlinear_arith);
    assert(is_linear_intensity(82, 84376)) by (nonlinear_arith);
    assert(is_linear_intensity(83, 86500)) by (nonlinear_arith);
    assert(is_linear_intensity(84, 88655)) by (nonlinear_arith);
    assert(is_linear_intensity(85, 90841)) by (nonlinear_arith);
    assert(is_linear_intensity(86, 93058)) by (nonlinear_arith);
    assert(is_linear_intensity(87, 95307)) by (nonlinear_arith);
    assert(is_linear_intensity(88, 97587)) by (nonlinear_arith);
    assert(is_linear_intensity(89, 99898)) by (nonlinear_arith);
    assert(is_linear_intensity(90, 102241)) by (nonlinear_arith);
    assert(is_linear_intensity(91, 104616)) by (nonlinear_arith);
    assert(is_linear_intensity(92, 107023)) by (nonlinear_arith);
    assert(is_linear_intensity(93, 109461)) by (nonlinear_arith);
    assert(is_linear_intensity(94, 111932)) by (nonlinear_arith);
    assert(is_linear_intensity(95, 114435)) by (nonlinear_arith);
    assert(is_linear_intensity(96, 116970)) by (nonlinear_arith);
    assert(is_linear_intensity(97, 119538)) by (nonlinear_arith);
    assert(is_linear_intensity(98, 122138)) by (nonlinear_arith);
    assert(is_linear_intensity(99, 124771)) by (nonlinear_arith);
    assert(is_linear_intensity(100, 127437)) by (nonlinear_arith);
    assert(is_linear_intensity(101, 130136)) by (nonlinear_arith);
    assert(is_linear_intensity(102, 132868)) by (nonlinear_arith);
    assert(is_linear_intensity(103, 135633)) by (nonlinear_arith);
    assert(is_linear_intensity(104, 138431)) by (nonlinear_arith);
    assert(is_linear_intensity(105, 141263)) by (nonlinear_arith);
    assert(is_linear_intensity(106, 144128)) by (nonlinear_arith);
    assert(is_linear_intensity(107, 147027)) by (nonlinear_arith);
    assert(is_linear_intensity(108, 149959)) by (nonlinear_arith);
    assert(is_linear_intensity(109, 152926)) by (nonlinear_arith);
    assert(is_linear_intensity(110, 155926)) by (nonlinear_arith);
    assert(is_linear_intensity(111, 158960)) by (nonlinear_arith);
    assert(is_linear_intensity(112, 162029)) by (nonlinear_arith);
    assert(is_linear_intensity(113, 165132)) by (nonlinear_arith);
    assert(is_linear_intensity(114, 168269)) by (nonlinear_arith);
    assert(is_linear_intensity(115, 171441)) by (nonlinear_arith);
}}

/// What the transfer curve gives for the channel values from 116 to 150.
pub proof fn lemma_curve_116_to_150()
    ensures
        is_linear_intensity(116, 174647),
        is_linear_intensity(117, 177888),
        is_linear_intensity(118, 181164),
        is_linear_intensity(119, 184474),
        is_linear_intensity(120, 187820),
        is_linear_intensity(121, 191201),
        is_linear_intensity(122, 194617),
        is_linear_intensity(123, 198069),
        is_linear_intensity(124, 201556),
        is_linear_intensity(125, 205078),
        is_linear_intensity(126, 208636),
        is_linear_intensity(127, 212230),
        is_linear_intensity(128, 215860),
        is_linear_intensity(129, 219526),
        is_linear_intensity(130, 223227),
        is_linear_intensity(131, 226965),
        is_linear_intensity(132, 230740),
        is_linear_intensity(133, 234550),
        is_linear_intensity(134, 238397),
        is_linear_intensity(135, 242281),
        is_linear_intensity(136, 246201),
        is_linear_intensity(137, 250158),
        is_linear_intensity(138, 254152),
        is_linear_intensity(139, 258182),
        is_linear_intensity(140, 262250),
        is_linear_intensity(141, 266355),
        is_linear_intensity(142, 270497),
        is_linear_intensity(143, 274677),
        is_linear_intensity(144, 278894),
        is_linear_intensity(145, 283148),
        is_linear_intensity(146, 287440),
        is_linear_intensity(147, 291770),
        is_linear_intensity(148, 296138),
        is_linear_intensity(149, 300543),
        is_linear_intensity(150, 304987),
{{
    assert(is_linear_intensity(116, 174647)) by (nonlinear_arith);
    assert(is_linear_intensity(117, 177888)) by (nonlinear_arith);
    assert(is_linear_intensity(118, 181164)) by (nonlinear_arith);
    assert(is_linear_intensity(119, 184474)) by (nonlinear_arith);
    assert(is_linear_intensity(120, 187820)) by (nonlinear_arith);
    assert(is_linear_intensity(121, 191201)) by (nonlinear_arith);
    assert(is_linear_intensity(122, 194617)) by (nonlinear_arith);
    assert(is_linear_intensity(123, 198069)) by (nonlinear_arith);
    assert(is_linear_intensity(124, 201556)) by (nonlinear_arith);
    assert(is_linear_intensity(125, 205078)) by (nonlinear_arith);
    assert(is_linear_intensity(126, 208636)) by (nonlinear_arith);
    assert(is_linear_intensity(127, 212230)) by (nonlinear_arith);
    assert(is_linear_intensity(128, 215860)) by (nonlinear_arith);
    assert(is_linear_intensity(129, 219526)) by (nonlinear_arith);
    assert(is_linear_intensity(130, 223227)) by (nonlinear_arith);
    assert(is_linear_intensity(131, 226965)) by (nonlinear_arith);
    assert(is_linear_intensity(132, 230740)) by (nonlinear_arith);
    assert(is_linear_intensity(133, 234550)) by (nonlinear_arith);
    assert(is_linear_intensity(134, 238397)) by (nonlinear_arith);
    assert(is_linear_intensity(135, 242281)) by (nonlinear_arith);
    assert(is_linear_intensity(136, 246201)) by (nonlinear_arith);
    assert(is_linear_intensity(137, 250158)) by (nonlinear_arith);
    assert(is_linear_intensity(138, 254152)) by (nonlinear_arith);
    assert(is_linear_intensity(139, 258182)) by (nonlinear_arith);
    assert(is_linear_intensity(140, 262250)) by (nonlinear_arith);
    assert(is_linear_intensity(141, 266355)) by (nonlinear_arith);
    assert(is_linear_intensity(142, 270497)) by (nonlinear_arith);
    assert(is_linear_intensity(143, 274677)) by (nonlinear_arith);
    assert(is_linear_intensity(144, 278894)) by (nonlinear_arith);
    assert(is_linear_intensity(145, 283148)) by (nonlinear_arith);
    assert(is_linear_intensity(146, 287440)) by (nonlinear_arith);
    assert(is_linear_intensity(147, 291770)) by (nonlinear_arith);
    assert(is_linear_intensity(148, 296138)) by (nonlinear_arith);
    assert(is_linear_intensity(149, 300543)) by (nonlinear_arith);
    assert(is_linear_intensity(150, 304987)) by (nonlinear_arith);
}}

/// What the transfer curve gives for the channel values from 151 to 185.
pub proof fn lemma_curve_151_to_185()
    ensures
        is_linear_intensity(151, 309468),
        is_linear_intensity(152, 313988),
        is_linear_intensity(153, 318546),
        is_linear_intensity(154, 323143),
        is_linear_intensity(155, 327778),
        is_linear_intensity(156, 332451),
        is_linear_intensity(157, 337163),
        is_linear_intensity(158, 341914),
        is_linear_intensity(159, 346704),
        is_linear_intensity(160, 351532),
        is_linear_intensity(161, 356400),
        is_linear_intensity(162, 361306),
        is_linear_intensity(163, 366252),
        is_linear_intensity(164, 371237),
        is_linear_intensity(165, 376262),
        is_linear_intensity(166, 381326),
        is_linear_intensity(167, 386429),
        is_linear_intensity(168, 391572),
        is_linear_intensity(169, 396755),
        is_linear_intensity(170, 401977),
        is_linear_intensity(171, 407240),
        is_linear_intensity(172, 412542),
        is_linear_intensity(173, 417885),
        is_linear_intensity(174, 423267),
        is_linear_intensity(175, 428690),
        is_linear_intensity(176, 434153),
        is_linear_intensity(177, 439657),
        is_linear_intensity(178, 445201),
        is_linear_intensity(179, 450785),
        is_linear_intensity(180, 456411),
        is_linear_intensity(181, 462076),
        is_linear_intensity(182, 467783),
        is_linear_intensity(183, 473531),
        is_linear_intensity(184, 479320),
        is_linear_intensity(185, 485149),
{{
    assert(is_linear_intensity(151, 309468)) by (nonlinear_arith);
    assert(is_linear_intensity(152, 313988)) by (nonlinear_arith);
    assert(is_linear_intensity(153, 318546)) by (nonlinear_arith);
    assert(is_linear_intensity(154, 323143)) by (nonlinear_arith);
    assert(is_linear_intensity(155, 327778)) by (nonlinear_arith);
    assert(is_linear_intensity(156, 332451)) by (nonlinear_arith);
    assert(is_linear_intensity(157, 337163)) by (nonlinear_arith);
    assert(is_linear_intensity(158, 341914)) by (nonlinear_arith);
    assert(is_linear_intensity(159, 346704)) by (nonlinear_arith);
    assert(is_linear_intensity(160, 351532)) by (nonlinear_arith);
    assert(is_linear_intensity(161, 356400)) by (nonlinear_arith);
    assert(is_linear_intensity(162, 361306)) by (nonlinear_arith);
    assert(is_linear_intensity(163, 366252)) by (nonlinear_arith);
    assert(is_linear_intensity(164, 371237)) by (nonlinear_arith);
    assert(is_linear_intensity(165, 376262)) by (nonlinear_arith);
    assert(is_linear_intensity(166, 381326)) by (nonlinear_arith);
    assert(is_linear_intensity(167, 386429)) by (nonlinear_arith);
    assert(is_linear_intensity(168, 391572)) by (nonlinear_arith);
    assert(is_linear_intensity(169, 396755)) by (nonlinear_arith);
    assert(is_linear_intensity(170, 401977)) by (nonlinear_arith);
    assert(is_linear_intensity(171, 407240)) by (nonlinear_arith);
    assert(is_linear_intensity(172, 412542)) by (nonlinear_arith);
    assert(is_linear_intensity(173, 417885)) by (nonlinear_arith);
    assert(is_linear_intensity(174, 423267)) by (nonlinear_arith);
    assert(is_linear_intensity(175, 428690)) by (nonlinear_arith);
    assert(is_linear_intensity(176, 434153)) by (nonlinear_arith);
    assert(is_linear_intensity(177, 439657)) by (nonlinear_arith);
    assert(is_linear_intensity(178, 445201)) by (nonlinear_arith);
    assert(is_linear_intensity(179, 450785)) by (nonlinear_arith);
    assert(is_linear_intensity(180, 456411)) by (nonlinear_arith);
    assert(is_linear_intensity(181, 462076)) by (nonlinear_arith);
    assert(is_linear_intensity(182, 467783)) by (nonlinear_arith);
    assert(is_linear_intensity(183, 473531)) by (nonlinear_arith);
    assert(is_linear_intensity(184, 479320)) by (nonlinear_arith);
    assert(is_linear_intensity(185, 485149)) by (nonlinear_arith);
}}

/// What the transfer curve gives for the channel values from 186 to 220.
pub proof fn lemma_curve_186_to_220()
    ensures
        is_linear_intensity(186, 491020),
        is_linear_intensity(187, 496932),
        is_linear_intensity(188, 502886),
        is_linear_intensity(189, 508881),
        is_linear_intensity(190, 514917),
        is_linear_intensity(191, 520995),
        is_linear_intensity(192, 527115),
        is_linear_intensity(193, 533276),
        is_linear_intensity(194, 539479),
        is_linear_intensity(195, 545724),
        is_linear_intensity(196, 552011),
        is_linear_intensity(197, 558340),
        is_linear_intensity(198, 564711),
        is_linear_intensity(199, 571124),
        is_linear_intensity(200, 577580),
        is_linear_intensity(201, 584078),
        is_linear_intensity(202, 590618),
        is_linear_intensity(203, 597201),
        is_linear_intensity(204, 603827),
        is_linear_intensity(205, 610495),
        is_linear_intensity(206, 617206),
        is_linear_intensity(207, 623960),
        is_linear_intensity(208, 630757),
        is_linear_intensity(209, 637596),
        is_linear_intensity(210, 644479),
        is_linear_intensity(211, 651405),
        is_linear_intensity(212, 658374),
        is_linear_intensity(213, 665387),
        is_linear_intensity(214, 672443),
        is_linear_intensity(215, 679542),
        is_linear_intensity(216, 686685),
        is_linear_intensity(217, 693871),
        is_linear_intensity(218, 701101),
        is_linear_intensity(219, 708375),
        is_linear_intensity(220, 715693),
{{
    assert(is_linear_intensity(186, 491020)) by (nonlinear_arith);
    assert(is_linear_intensity(187, 496932)) by (nonlinear_arith);
    assert(is_linear_intensity(188, 502886)) by (nonlinear_arith);
    assert(is_linear_intensity(189, 508881)) by (nonlinear_arith);
    assert(is_linear_intensity(190, 514917)) by (nonlinear_arith);
    assert(is_linear_intensity(191, 520995)) by (nonlinear_arith);
    assert(is_linear_intensity(192, 527115)) by (nonlinear_arith);
    assert(is_linear_intensity(193, 533276)) by (nonlinear_arith);
    assert(is_linear_intensity(194, 539479)) by (nonlinear_arith);
    assert(is_linear_intensity(195, 545724)) by (nonlinear_arith);
    assert(is_linear_intensity(196, 552011)) by (nonlinear_arith);
    assert(is_linear_intensity(197, 558340)) by (nonlinear_arith);
    assert(is_linear_intensity(198, 564711)) by (nonlinear_arith);
    assert(is_linear_intensity(199, 571124)) by (nonlinear_arith);
    assert(is_linear_intensity(200, 577580)) by (nonlinear_arith);
    assert(is_linear_intensity(201, 584078)) by (nonlinear_arith);
    assert(is_linear_intensity(202, 590618)) by (nonlinear_arith);
    assert(is_linear_intensity(203, 597201)) by (nonlinear_arith);
    assert(is_linear_intensity(204, 603827)) by (nonlinear_arith);
    assert(is_linear_intensity(205, 610495)) by (nonlinear_arith);
    assert(is_linear_intensity(206, 617206)) by (nonlinear_arith);
    assert(is_linear_intensity(207, 623960)) by (nonlinear_arith);
    assert(is_linear_intensity(208, 630757)) by (nonlinear_arith);
    assert(is_linear_intensity(209, 637596)) by (nonlinear_arith);
    assert(is_linear_intensity(210, 644479)) by (nonlinear_arith);
    assert(is_linear_intensity(211, 651405)) by (nonlinear_arith);
    assert(is_linear_intensity(212, 658374)) by (nonlinear_arith);
    assert(is_linear_intensity(213, 665387)) by (nonlinear_arith);
    assert(is_linear_intensity(214, 672443)) by (nonlinear_arith);
    assert(is_linear_intensity(215, 679542)) by (nonlinear_arith);
    assert(is_linear_intensity(216, 686685)) by (nonlinear_arith);
    assert(is_linear_intensity(217, 693871)) by (nonlinear_arith);
    assert(is_linear_intensity(218, 701101)) by (nonlinear_arith);
    assert(is_linear_intensity(219, 708375)) by (nonlinear_arith);
    assert(is_linear_intensity(220, 715693)) by (nonlinear_arith);
}}

/// What the transfer curve gives for the channel values from 221 to 255.
pub proof fn lemma_curve_221_to_255()
    ensures
        is_linear_intensity(221, 723055),
        is_linear_intensity(222, 730460),
        is_linear_intensity(223, 737910),
        is_linear_intensity(224, 745404),
        is_linear_intensity(225, 752942),
        is_linear_intensity(226, 760524),
        is_linear_intensity(227, 768151),
        is_linear_intensity(228, 775822),
        is_linear_intensity(229, 783537),
        is_linear_intensity(230, 791297),
        is_linear_intensity(231, 799102),
        is_linear_intensity(232, 806952),
        is_linear_intensity(233, 814846),
        is_linear_intensity(234, 822785),
        is_linear_intensity(235, 830769),
        is_linear_intensity(236, 838799),
        is_linear_intensity(237, 846873),
        is_linear_intensity(238, 854992),
        is_linear_intensity(239, 863157),
        is_linear_intensity(240, 871367),
        is_linear_intensity(241, 879622),
        is_linear_intensity(242, 887923),
        is_linear_intensity(243, 896269),
        is_linear_intensity(244, 904661),
        is_linear_intensity(245, 913098),
        is_linear_intensity(246, 921581),
        is_linear_intensity(247, 930110),
        is_linear_intensity(248, 938685),
        is_linear_intensity(249, 947306),
        is_linear_intensity(250, 955973),
        is_linear_intensity(251, 964686),
        is_linear_intensity(252, 973445),
        is_linear_intensity(253, 982250),
        is_linear_intensity(254, 991102),
        is_linear_intensity(255, 1000000),
{{
    assert(is_linear_intensity(221, 723055)) by (nonlinear_arith);
    assert(is_linear_intensity(222, 730460)) by (nonlinear_arith);
    assert(is_linear_intensity(223, 737910)) by (nonlinear_arith);
    assert(is_linear_intensity(224, 745404)) by (nonlinear_arith);
    assert(is_linear_intensity(225, 752942)) by (nonlinear_arith);
    assert(is_linear_intensity(226, 760524)) by (nonlinear_arith);
    assert(is_linear_intensity(227, 768151)) by (nonlinear_arith);
    assert(is_linear_intensity(228, 775822)) by (nonlinear_arith);
    assert(is_linear_intensity(229, 783537)) by (nonlinear_arith);
    assert(is_linear_intensity(230, 791297)) by (nonlinear_arith);
    assert(is_linear_intensity(231, 799102)) by (nonlinear_arith);
    assert(is_linear_intensity(232, 806952)) by (nonlinear_arith);
    assert(is_linear_intensity(233, 814846)) by (nonlinear_arith);
    assert(is_linear_intensity(234, 822785)) by (nonlinear_arith);
    assert(is_linear_intensity(235, 830769)) by (nonlinear_arith);
    assert(is_linear_intensity(236, 838799)) by (nonlinear_arith);
    assert(is_linear_intensity(237, 846873)) by (nonlinear_arith);
    assert(is_linear_intensity(238, 854992)) by (nonlinear_arith);
    assert(is_linear_intensity(239, 863157)) by (nonlinear_arith);
    assert(is_linear_intensity(240, 871367)) by (nonlinear_arith);
    assert(is_linear_intensity(241, 879622)) by (nonlinear_arith);
    assert(is_linear_intensity(242, 887923)) by (nonlinear_arith);
    assert(is_linear_intensity(243, 896269)) by (nonlinear_arith);
    assert(is_linear_intensity(244, 904661)) by (nonlinear_arith);
    assert(is_linear_intensity(245, 913098)) by (nonlinear_arith);
    assert(is_linear_intensity(246, 921581)) by (nonlinear_arith);
    assert(is_linear_intensity(247, 930110)) by (nonlinear_arith);
    assert(is_linear_intensity(248, 938685)) by (nonlinear_arith);
    assert(is_linear_intensity(249, 947306)) by (nonlinear_arith);
    assert(is_linear_intensity(250, 955973)) by (nonlinear_arith);
    assert(is_linear_intensity(251, 964686)) by (nonlinear_arith);
    assert(is_linear_intensity(252, 973445)) by (nonlinear_arith);
    assert(is_linear_intensity(253, 982250)) by (nonlinear_arith);
    assert(is_linear_intensity(254, 991102)) by (nonlinear_arith);
    assert(is_linear_intensity(255, 1000000)) by (nonlinear_arith);
}}

/// Fifth powers of non-negative numbers grow with the number.
pub proof fn lemma_fifth_power_increases(a: int, b: int)
    requires
        0 <= a < b,
    ensures
        fifth_power(a) < fifth_power(b),
{
    let a2 = a * a;
    let b2 = b * b;
    assert(0 <= a2 < b2) by (nonlinear_arith)
        requires
            0 <= a < b,
            a2 == a * a,
            b2 == b * b,
    ;
    let a4 = a2 * a2;
    let b4 = b2 * b2;
    assert(0 <= a4 < b4) by (nonlinear_arith)
        requires
            0 <= a2 < b2,
            a4 == a2 * a2,
            b4 == b2 * b2,
    ;
    assert(a4 * a < b4 * b) by (nonlinear_arith)
        requires
            0 <= a4 < b4,
            0 <= a < b,
    ;
    assert(fifth_power(a) == a4 * a) by (nonlinear_arith)
        requires
            a4 == (a * a) * (a * a),
    ;
    assert(fifth_power(b) == b4 * b) by (nonlinear_arith)
        requires
            b4 == (b * b) * (b * b),
    ;
}

} // verus!
