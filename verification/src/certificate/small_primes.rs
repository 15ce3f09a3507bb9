//! The primes whose powers make up the factored part of `r - 1`, each proved
//! prime by trial division.
use vstd::prelude::*;
use crate::number_theory::{is_prime, lemma_trial_division};

verus! {

/// 2 is prime.
pub proof fn lemma_prime_2()
    ensures
        is_prime(2),
{
    assert(2 < (1 + 1) * (1 + 1)) by (nonlinear_arith);
    lemma_trial_division(2, 1);
}

/// No number from 2 to 3 divides 11.
proof fn lemma_undivided_11_part_1()
    ensures
        forall|d: nat| 2 <= d <= 3 ==> #[trigger] (11nat % d) != 0,
{
    assert forall|d: nat| 2 <= d <= 3 implies #[trigger] (11nat % d) != 0 by {
        if d == 2 {
        } else if d == 3 {
        }
    }
}

/// 11 is prime: no number from 2 to 3 divides it, and the square of 4
/// exceeds it.
pub proof fn lemma_prime_11()
    ensures
        is_prime(11),
{
    lemma_undivided_11_part_1();
    assert(11 < (3 + 1) * (3 + 1)) by (nonlinear_arith);
    lemma_trial_division(11, 3);
}

/// No number from 2 to 4 divides 19.
proof fn lemma_undivided_19_part_1()
    ensures
        forall|d: nat| 2 <= d <= 4 ==> #[trigger] (19nat % d) != 0,
{
    assert forall|d: nat| 2 <= d <= 4 implies #[trigger] (19nat % d) != 0 by {
        if d == 2 {
        } else if d == 3 {
        } else if d == 4 {
        }
    }
}

/// 19 is prime: no number from 2 to 4 divides it, and the square of 5
/// exceeds it.
pub proof fn lemma_prime_19()
    ensures
        is_prime(19),
{
    lemma_undivided_19_part_1();
    assert(19 < (4 + 1) * (4 + 1)) by (nonlinear_arith);
    lemma_trial_division(19, 4);
}

/// No number from 2 to 65 divides 10177.
proof fn lemma_undivided_10177_part_1()
    ensures
        forall|d: nat| 2 <= d <= 65 ==> #[trigger] (10177nat % d) != 0,
{
    assert forall|d: nat| 2 <= d <= 65 implies #[trigger] (10177nat % d) != 0 by {
        if d == 2 {
        } else if d == 3 {
        } else if d == 4 {
        } else if d == 5 {
        } else if d == 6 {
        } else if d == 7 {
        } else if d == 8 {
        } else if d == 9 {
        } else if d == 10 {
        } else if d == 11 {
        } else if d == 12 {
        } else if d == 13 {
        } else if d == 14 {
        } else if d == 15 {
        } else if d == 16 {
        } else if d == 17 {
        } else if d == 18 {
        } else if d == 19 {
        } else if d == 20 {
        } else if d == 21 {
        } else if d == 22 {
        } else if d == 23 {
        } else if d == 24 {
        } else if d == 25 {
        } else if d == 26 {
        } else if d == 27 {
        } else if d == 28 {
        } else if d == 29 {
        } else if d == 30 {
        } else if d == 31 {
        } else if d == 32 {
        } else if d == 33 {
        } else if d == 34 {
        } else if d == 35 {
        } else if d == 36 {
        } else if d == 37 {
        } else if d == 38 {
        } else if d == 39 {
        } else if d == 40 {
        } else if d == 41 {
        } else if d == 42 {
        } else if d == 43 {
        } else if d == 44 {
        } else if d == 45 {
        } else if d == 46 {
        } else if d == 47 {
        } else if d == 48 {
        } else if d == 49 {
        } else if d == 50 {
        } else if d == 51 {
        } else if d == 52 {
        } else if d == 53 {
        } else if d == 54 {
        } else if d == 55 {
        } else if d == 56 {
        } else if d == 57 {
        } else if d == 58 {
        } else if d == 59 {
        } else if d == 60 {
        } else if d == 61 {
        } else if d == 62 {
        } else if d == 63 {
        } else if d == 64 {
        } else if d == 65 {
        }
    }
}

/// No number from 66 to 100 divides 10177.
proof fn lemma_undivided_10177_part_2()
    ensures
        forall|d: nat| 66 <= d <= 100 ==> #[trigger] (10177nat % d) != 0,
{
    assert forall|d: nat| 66 <= d <= 100 implies #[trigger] (10177nat % d) != 0 by {
        if d == 66 {
        } else if d == 67 {
        } else if d == 68 {
        } else if d == 69 {
        } else if d == 70 {
        } else if d == 71 {
        } else if d == 72 {
        } else if d == 73 {
        } else if d == 74 {
        } else if d == 75 {
        } else if d == 76 {
        } else if d == 77 {
        } else if d == 78 {
        } else if d == 79 {
        } else if d == 80 {
        } else if d == 81 {
        } else if d == 82 {
        } else if d == 83 {
        } else if d == 84 {
        } else if d == 85 {
        } else if d == 86 {
        } else if d == 87 {
        } else if d == 88 {
        } else if d == 89 {
        } else if d == 90 {
        } else if d == 91 {
        } else if d == 92 {
        } else if d == 93 {
        } else if d == 94 {
        } else if d == 95 {
        } else if d == 96 {
        } else if d == 97 {
        } else if d == 98 {
        } else if d == 99 {
        } else if d == 100 {
        }
    }
}

/// 10177 is prime: no number from 2 to 100 divides it, and the square of 101
/// exceeds it.
pub proof fn lemma_prime_10177()
    ensures
        is_prime(10177),
{
    lemma_undivided_10177_part_1();
    lemma_undivided_10177_part_2();
    assert(10177 < (100 + 1) * (100 + 1)) by (nonlinear_arith);
    lemma_trial_division(10177, 100);
}

/// No number from 2 to 65 divides 125527.
proof fn lemma_undivided_125527_part_1()
    ensures
        forall|d: nat| 2 <= d <= 65 ==> #[trigger] (125527nat % d) != 0,
{
    assert forall|d: nat| 2 <= d <= 65 implies #[trigger] (125527nat % d) != 0 by {
        if d == 2 {
        } else if d == 3 {
        } else if d == 4 {
        } else if d == 5 {
        } else if d == 6 {
        } else if d == 7 {
        } else if d == 8 {
        } else if d == 9 {
        } else if d == 10 {
        } else if d == 11 {
        } else if d == 12 {
        } else if d == 13 {
        } else if d == 14 {
        } else if d == 15 {
        } else if d == 16 {
        } else if d == 17 {
        } else if d == 18 {
        } else if d == 19 {
        } else if d == 20 {
        } else if d == 21 {
        } else if d == 22 {
        } else if d == 23 {
        } else if d == 24 {
        } else if d == 25 {
        } else if d == 26 {
        } else if d == 27 {
        } else if d == 28 {
        } else if d == 29 {
        } else if d == 30 {
        } else if d == 31 {
        } else if d == 32 {
        } else if d == 33 {
        } else if d == 34 {
        } else if d == 35 {
        } else if d == 36 {
        } else if d == 37 {
        } else if d == 38 {
        } else if d == 39 {
        } else if d == 40 {
        } else if d == 41 {
        } else if d == 42 {
        } else if d == 43 {
        } else if d == 44 {
        } else if d == 45 {
        } else if d == 46 {
        } else if d == 47 {
        } else if d == 48 {
        } else if d == 49 {
        } else if d == 50 {
        } else if d == 51 {
        } else if d == 52 {
        } else if d == 53 {
        } else if d == 54 {
        } else if d == 55 {
        } else if d == 56 {
        } else if d == 57 {
        } else if d == 58 {
        } else if d == 59 {
        } else if d == 60 {
        } else if d == 61 {
        } else if d == 62 {
        } else if d == 63 {
        } else if d == 64 {
        } else if d == 65 {
        }
    }
}

/// No number from 66 to 129 divides 125527.
proof fn lemma_undivided_125527_part_2()
    ensures
        forall|d: nat| 66 <= d <= 129 ==> #[trigger] (125527nat % d) != 0,
{
    assert forall|d: nat| 66 <= d <= 129 implies #[trigger] (125527nat % d) != 0 by {
        if d == 66 {
        } else if d == 67 {
        } else if d == 68 {
        } else if d == 69 {
        } else if d == 70 {
        } else if d == 71 {
        } else if d == 72 {
        } else if d == 73 {
        } else if d == 74 {
        } else if d == 75 {
        } else if d == 76 {
        } else if d == 77 {
        } else if d == 78 {
        } else if d == 79 {
        } else if d == 80 {
        } else if d == 81 {
        } else if d == 82 {
        } else if d == 83 {
        } else if d == 84 {
        } else if d == 85 {
        } else if d == 86 {
        } else if d == 87 {
        } else if d == 88 {
        } else if d == 89 {
        } else if d == 90 {
        } else if d == 91 {
        } else if d == 92 {
        } else if d == 93 {
        } else if d == 94 {
        } else if d == 95 {
        } else if d == 96 {
        } else if d == 97 {
        } else if d == 98 {
        } else if d == 99 {
        } else if d == 100 {
        } else if d == 101 {
        } else if d == 102 {
        } else if d == 103 {
        } else if d == 104 {
        } else if d == 105 {
        } else if d == 106 {
        } else if d == 107 {
        } else if d == 108 {
        } else if d == 109 {
        } else if d == 110 {
        } else if d == 111 {
        } else if d == 112 {
        } else if d == 113 {
        } else if d == 114 {
        } else if d == 115 {
        } else if d == 116 {
        } else if d == 117 {
        } else if d == 118 {
        } else if d == 119 {
        } else if d == 120 {
        } else if d == 121 {
        } else if d == 122 {
        } else if d == 123 {
        } else if d == 124 {
        } else if d == 125 {
        } else if d == 126 {
        } else if d == 127 {
        } else if d == 128 {
        } else if d == 129 {
        }
    }
}

/// No number from 130 to 193 divides 125527.
proof fn lemma_undivided_125527_part_3()
    ensures
        forall|d: nat| 130 <= d <= 193 ==> #[trigger] (125527nat % d) != 0,
{
    assert forall|d: nat| 130 <= d <= 193 implies #[trigger] (125527nat % d) != 0 by {
        if d == 130 {
        } else if d == 131 {
        } else if d == 132 {
        } else if d == 133 {
        } else if d == 134 {
        } else if d == 135 {
        } else if d == 136 {
        } else if d == 137 {
        } else if d == 138 {
        } else if d == 139 {
        } else if d == 140 {
        } else if d == 141 {
        } else if d == 142 {
        } else if d == 143 {
        } else if d == 144 {
        } else if d == 145 {
        } else if d == 146 {
        } else if d == 147 {
        } else if d == 148 {
        } else if d == 149 {
        } else if d == 150 {
        } else if d == 151 {
        } else if d == 152 {
        } else if d == 153 {
        } else if d == 154 {
        } else if d == 155 {
        } else if d == 156 {
        } else if d == 157 {
        } else if d == 158 {
        } else if d == 159 {
        } else if d == 160 {
        } else if d == 161 {
        } else if d == 162 {
        } else if d == 163 {
        } else if d == 164 {
        } else if d == 165 {
        } else if d == 166 {
        } else if d == 167 {
        } else if d == 168 {
        } else if d == 169 {
        } else if d == 170 {
        } else if d == 171 {
        } else if d == 172 {
        } else if d == 173 {
        } else if d == 174 {
        } else if d == 175 {
        } else if d == 176 {
        } else if d == 177 {
        } else if d == 178 {
        } else if d == 179 {
        } else if d == 180 {
        } else if d == 181 {
        } else if d == 182 {
        } else if d == 183 {
        } else if d == 184 {
        } else if d == 185 {
        } else if d == 186 {
        } else if d == 187 {
        } else if d == 188 {
        } else if d == 189 {
        } else if d == 190 {
        } else if d == 191 {
        } else if d == 192 {
        } else if d == 193 {
        }
    }
}

/// No number from 194 to 257 divides 125527.
proof fn lemma_undivided_125527_part_4()
    ensures
        forall|d: nat| 194 <= d <= 257 ==> #[trigger] (125527nat % d) != 0,
{
    assert forall|d: nat| 194 <= d <= 257 implies #[trigger] (125527nat % d) != 0 by {
        if d == 194 {
        } else if d == 195 {
        } else if d == 196 {
        } else if d == 197 {
        } else if d == 198 {
        } else if d == 199 {
        } else if d == 200 {
        } else if d == 201 {
        } else if d == 202 {
        } else if d == 203 {
        } else if d == 204 {
        } else if d == 205 {
        } else if d == 206 {
        } else if d == 207 {
        } else if d == 208 {
        } else if d == 209 {
        } else if d == 210 {
        } else if d == 211 {
        } else if d == 212 {
        } else if d == 213 {
        } else if d == 214 {
        } else if d == 215 {
        } else if d == 216 {
        } else if d == 217 {
        } else if d == 218 {
        } else if d == 219 {
        } else if d == 220 {
        } else if d == 221 {
        } else if d == 222 {
        } else if d == 223 {
        } else if d == 224 {
        } else if d == 225 {
        } else if d == 226 {
        } else if d == 227 {
        } else if d == 228 {
        } else if d == 229 {
        } else if d == 230 {
        } else if d == 231 {
        } else if d == 232 {
        } else if d == 233 {
        } else if d == 234 {
        } else if d == 235 {
        } else if d == 236 {
        } else if d == 237 {
        } else if d == 238 {
        } else if d == 239 {
        } else if d == 240 {
        } else if d == 241 {
        } else if d == 242 {
        } else if d == 243 {
        } else if d == 244 {
        } else if d == 245 {
        } else if d == 246 {
        } else if d == 247 {
        } else if d == 248 {
        } else if d == 249 {
        } else if d == 250 {
        } else if d == 251 {
        } else if d == 252 {
        } else if d == 253 {
        } else if d == 254 {
        } else if d == 255 {
        } else if d == 256 {
        } else if d == 257 {
        }
    }
}

/// No number from 258 to 321 divides 125527.
proof fn lemma_undivided_125527_part_5()
    ensures
        forall|d: nat| 258 <= d <= 321 ==> #[trigger] (125527nat % d) != 0,
{
    assert forall|d: nat| 258 <= d <= 321 implies #[trigger] (125527nat % d) != 0 by {
        if d == 258 {
        } else if d == 259 {
        } else if d == 260 {
        } else if d == 261 {
        } else if d == 262 {
        } else if d == 263 {
        } else if d == 264 {
        } else if d == 265 {
        } else if d == 266 {
        } else if d == 267 {
        } else if d == 268 {
        } else if d == 269 {
        } else if d == 270 {
        } else if d == 271 {
        } else if d == 272 {
        } else if d == 273 {
        } else if d == 274 {
        } else if d == 275 {
        } else if d == 276 {
        } else if d == 277 {
        } else if d == 278 {
        } else if d == 279 {
        } else if d == 280 {
        } else if d == 281 {
        } else if d == 282 {
        } else if d == 283 {
        } else if d == 284 {
        } else if d == 285 {
        } else if d == 286 {
        } else if d == 287 {
        } else if d == 288 {
        } else if d == 289 {
        } else if d == 290 {
        } else if d == 291 {
        } else if d == 292 {
        } else if d == 293 {
        } else if d == 294 {
        } else if d == 295 {
        } else if d == 296 {
        } else if d == 297 {
        } else if d == 298 {
        } else if d == 299 {
        } else if d == 300 {
        } else if d == 301 {
        } else if d == 302 {
        } else if d == 303 {
        } else if d == 304 {
        } else if d == 305 {
        } else if d == 306 {
        } else if d == 307 {
        } else if d == 308 {
        } else if d == 309 {
        } else if d == 310 {
        } else if d == 311 {
        } else if d == 312 {
        } else if d == 313 {
        } else if d == 314 {
        } else if d == 315 {
        } else if d == 316 {
        } else if d == 317 {
        } else if d == 318 {
        } else if d == 319 {
        } else if d == 320 {
        } else if d == 321 {
        }
    }
}

/// No number from 322 to 354 divides 125527.
proof fn lemma_undivided_125527_part_6()
    ensures
        forall|d: nat| 322 <= d <= 354 ==> #[trigger] (125527nat % d) != 0,
{
    assert forall|d: nat| 322 <= d <= 354 implies #[trigger] (125527nat % d) != 0 by {
        if d == 322 {
        } else if d == 323 {
        } else if d == 324 {
        } else if d == 325 {
        } else if d == 326 {
        } else if d == 327 {
        } else if d == 328 {
        } else if d == 329 {
        } else if d == 330 {
        } else if d == 331 {
        } else if d == 332 {
        } else if d == 333 {
        } else if d == 334 {
        } else if d == 335 {
        } else if d == 336 {
        } else if d == 337 {
        } else if d == 338 {
        } else if d == 339 {
        } else if d == 340 {
        } else if d == 341 {
        } else if d == 342 {
        } else if d == 343 {
        } else if d == 344 {
        } else if d == 345 {
        } else if d == 346 {
        } else if d == 347 {
        } else if d == 348 {
        } else if d == 349 {
        } else if d == 350 {
        } else if d == 351 {
        } else if d == 352 {
        } else if d == 353 {
        } else if d == 354 {
        }
    }
}

/// 125527 is prime: no number from 2 to 354 divides it, and the square of 355
/// exceeds it.
pub proof fn lemma_prime_125527()
    ensures
        is_prime(125527),
{
    lemma_undivided_125527_part_1();
    lemma_undivided_125527_part_2();
    lemma_undivided_125527_part_3();
    lemma_undivided_125527_part_4();
    lemma_undivided_125527_part_5();
    lemma_undivided_125527_part_6();
    assert(125527 < (354 + 1) * (354 + 1)) by (nonlinear_arith);
    lemma_trial_division(125527, 354);
}

/// No number from 2 to 65 divides 859267.
proof fn lemma_undivided_859267_part_1()
    ensures
        forall|d: nat| 2 <= d <= 65 ==> #[trigger] (859267nat % d) != 0,
{
    assert forall|d: nat| 2 <= d <= 65 implies #[trigger] (859267nat % d) != 0 by {
        if d == 2 {
        } else if d == 3 {
        } else if d == 4 {
        } else if d == 5 {
        } else if d == 6 {
        } else if d == 7 {
        } else if d == 8 {
        } else if d == 9 {
        } else if d == 10 {
        } else if d == 11 {
        } else if d == 12 {
        } else if d == 13 {
        } else if d == 14 {
        } else if d == 15 {
        } else if d == 16 {
        } else if d == 17 {
        } else if d == 18 {
        } else if d == 19 {
        } else if d == 20 {
        } else if d == 21 {
        } else if d == 22 {
        } else if d == 23 {
        } else if d == 24 {
        } else if d == 25 {
        } else if d == 26 {
        } else if d == 27 {
        } else if d == 28 {
        } else if d == 29 {
        } else if d == 30 {
        } else if d == 31 {
        } else if d == 32 {
        } else if d == 33 {
        } else if d == 34 {
        } else if d == 35 {
        } else if d == 36 {
        } else if d == 37 {
        } else if d == 38 {
        } else if d == 39 {
        } else if d == 40 {
        } else if d == 41 {
        } else if d == 42 {
        } else if d == 43 {
        } else if d == 44 {
        } else if d == 45 {
        } else if d == 46 {
        } else if d == 47 {
        } else if d == 48 {
        } else if d == 49 {
        } else if d == 50 {
        } else if d == 51 {
        } else if d == 52 {
        } else if d == 53 {
        } else if d == 54 {
        } else if d == 55 {
        } else if d == 56 {
        } else if d == 57 {
        } else if d == 58 {
        } else if d == 59 {
        } else if d == 60 {
        } else if d == 61 {
        } else if d == 62 {
        } else if d == 63 {
        } else if d == 64 {
        } else if d == 65 {
        }
    }
}

/// No number from 66 to 129 divides 859267.
proof fn lemma_undivided_859267_part_2()
    ensures
        forall|d: nat| 66 <= d <= 129 ==> #[trigger] (859267nat % d) != 0,
{
    assert forall|d: nat| 66 <= d <= 129 implies #[trigger] (859267nat % d) != 0 by {
        if d == 66 {
        } else if d == 67 {
        } else if d == 68 {
        } else if d == 69 {
        } else if d == 70 {
        } else if d == 71 {
        } else if d == 72 {
        } else if d == 73 {
        } else if d == 74 {
        } else if d == 75 {
        } else if d == 76 {
        } else if d == 77 {
        } else if d == 78 {
        } else if d == 79 {
        } else if d == 80 {
        } else if d == 81 {
        } else if d == 82 {
        } else if d == 83 {
        } else if d == 84 {
        } else if d == 85 {
        } else if d == 86 {
        } else if d == 87 {
        } else if d == 88 {
        } else if d == 89 {
        } else if d == 90 {
        } else if d == 91 {
        } else if d == 92 {
        } else if d == 93 {
        } else if d == 94 {
        } else if d == 95 {
        } else if d == 96 {
        } else if d == 97 {
        } else if d == 98 {
        } else if d == 99 {
        } else if d == 100 {
        } else if d == 101 {
        } else if d == 102 {
        } else if d == 103 {
        } else if d == 104 {
        } else if d == 105 {
        } else if d == 106 {
        } else if d == 107 {
        } else if d == 108 {
        } else if d == 109 {
        } else if d == 110 {
        } else if d == 111 {
        } else if d == 112 {
        } else if d == 113 {
        } else if d == 114 {
        } else if d == 115 {
        } else if d == 116 {
        } else if d == 117 {
        } else if d == 118 {
        } else if d == 119 {
        } else if d == 120 {
        } else if d == 121 {
        } else if d == 122 {
        } else if d == 123 {
        } else if d == 124 {
        } else if d == 125 {
        } else if d == 126 {
        } else if d == 127 {
        } else if d == 128 {
        } else if d == 129 {
        }
    }
}

/// No number from 130 to 193 divides 859267.
proof fn lemma_undivided_859267_part_3()
    ensures
        forall|d: nat| 130 <= d <= 193 ==> #[trigger] (859267nat % d) != 0,
{
    assert forall|d: nat| 130 <= d <= 193 implies #[trigger] (859267nat % d) != 0 by {
        if d == 130 {
        } else if d == 131 {
        } else if d == 132 {
        } else if d == 133 {
        } else if d == 134 {
        } else if d == 135 {
        } else if d == 136 {
        } else if d == 137 {
        } else if d == 138 {
        } else if d == 139 {
        } else if d == 140 {
        } else if d == 141 {
        } else if d == 142 {
        } else if d == 143 {
        } else if d == 144 {
        } else if d == 145 {
        } else if d == 146 {
        } else if d == 147 {
        } else if d == 148 {
        } else if d == 149 {
        } else if d == 150 {
        } else if d == 151 {
        } else if d == 152 {
        } else if d == 153 {
        } else if d == 154 {
        } else if d == 155 {
        } else if d == 156 {
        } else if d == 157 {
        } else if d == 158 {
        } else if d == 159 {
        } else if d == 160 {
        } else if d == 161 {
        } else if d == 162 {
        } else if d == 163 {
        } else if d == 164 {
        } else if d == 165 {
        } else if d == 166 {
        } else if d == 167 {
        } else if d == 168 {
        } else if d == 169 {
        } else if d == 170 {
        } else if d == 171 {
        } else if d == 172 {
        } else if d == 173 {
        } else if d == 174 {
        } else if d == 175 {
        } else if d == 176 {
        } else if d == 177 {
        } else if d == 178 {
        } else if d == 179 {
        } else if d == 180 {
        } else if d == 181 {
        } else if d == 182 {
        } else if d == 183 {
        } else if d == 184 {
        } else if d == 185 {
        } else if d == 186 {
        } else if d == 187 {
        } else if d == 188 {
        } else if d == 189 {
        } else if d == 190 {
        } else if d == 191 {
        } else if d == 192 {
        } else if d == 193 {
        }
    }
}

/// No number from 194 to 257 divides 859267.
proof fn lemma_undivided_859267_part_4()
    ensures
        forall|d: nat| 194 <= d <= 257 ==> #[trigger] (859267nat % d) != 0,
{
    assert forall|d: nat| 194 <= d <= 257 implies #[trigger] (859267nat % d) != 0 by {
        if d == 194 {
        } else if d == 195 {
        } else if d == 196 {
        } else if d == 197 {
        } else if d == 198 {
        } else if d == 199 {
        } else if d == 200 {
        } else if d == 201 {
        } else if d == 202 {
        } else if d == 203 {
        } else if d == 204 {
        } else if d == 205 {
        } else if d == 206 {
        } else if d == 207 {
        } else if d == 208 {
        } else if d == 209 {
        } else if d == 210 {
        } else if d == 211 {
        } else if d == 212 {
        } else if d == 213 {
        } else if d == 214 {
        } else if d == 215 {
        } else if d == 216 {
        } else if d == 217 {
        } else if d == 218 {
        } else if d == 219 {
        } else if d == 220 {
        } else if d == 221 {
        } else if d == 222 {
        } else if d == 223 {
        } else if d == 224 {
        } else if d == 225 {
        } else if d == 226 {
        } else if d == 227 {
        } else if d == 228 {
        } else if d == 229 {
        } else if d == 230 {
        } else if d == 231 {
        } else if d == 232 {
        } else if d == 233 {
        } else if d == 234 {
        } else if d == 235 {
        } else if d == 236 {
        } else if d == 237 {
        } else if d == 238 {
        } else if d == 239 {
        } else if d == 240 {
        } else if d == 241 {
        } else if d == 242 {
        } else if d == 243 {
        } else if d == 244 {
        } else if d == 245 {
        } else if d == 246 {
        } else if d == 247 {
        } else if d == 248 {
        } else if d == 249 {
        } else if d == 250 {
        } else if d == 251 {
        } else if d == 252 {
        } else if d == 253 {
        } else if d == 254 {
        } else if d == 255 {
        } else if d == 256 {
        } else if d == 257 {
        }
    }
}

/// No number from 258 to 321 divides 859267.
proof fn lemma_undivided_859267_part_5()
    ensures
        forall|d: nat| 258 <= d <= 321 ==> #[trigger] (859267nat % d) != 0,
{
    assert forall|d: nat| 258 <= d <= 321 implies #[trigger] (859267nat % d) != 0 by {
        if d == 258 {
        } else if d == 259 {
        } else if d == 260 {
        } else if d == 261 {
        } else if d == 262 {
        } else if d == 263 {
        } else if d == 264 {
        } else if d == 265 {
        } else if d == 266 {
        } else if d == 267 {
        } else if d == 268 {
        } else if d == 269 {
        } else if d == 270 {
        } else if d == 271 {
        } else if d == 272 {
        } else if d == 273 {
        } else if d == 274 {
        } else if d == 275 {
        } else if d == 276 {
        } else if d == 277 {
        } else if d == 278 {
        } else if d == 279 {
        } else if d == 280 {
        } else if d == 281 {
        } else if d == 282 {
        } else if d == 283 {
        } else if d == 284 {
        } else if d == 285 {
        } else if d == 286 {
        } else if d == 287 {
        } else if d == 288 {
        } else if d == 289 {
        } else if d == 290 {
        } else if d == 291 {
        } else if d == 292 {
        } else if d == 293 {
        } else if d == 294 {
        } else if d == 295 {
        } else if d == 296 {
        } else if d == 297 {
        } else if d == 298 {
        } else if d == 299 {
        } else if d == 300 {
        } else if d == 301 {
        } else if d == 302 {
        } else if d == 303 {
        } else if d == 304 {
        } else if d == 305 {
        } else if d == 306 {
        } else if d == 307 {
        } else if d == 308 {
        } else if d == 309 {
        } else if d == 310 {
        } else if d == 311 {
        } else if d == 312 {
        } else if d == 313 {
        } else if d == 314 {
        } else if d == 315 {
        } else if d == 316 {
        } else if d == 317 {
        } else if d == 318 {
        } else if d == 319 {
        } else if d == 320 {
        } else if d == 321 {
        }
    }
}

/// No number from 322 to 385 divides 859267.
proof fn lemma_undivided_859267_part_6()
    ensures
        forall|d: nat| 322 <= d <= 385 ==> #[trigger] (859267nat % d) != 0,
{
    assert forall|d: nat| 322 <= d <= 385 implies #[trigger] (859267nat % d) != 0 by {
        if d == 322 {
        } else if d == 323 {
        } else if d == 324 {
        } else if d == 325 {
        } else if d == 326 {
        } else if d == 327 {
        } else if d == 328 {
        } else if d == 329 {
        } else if d == 330 {
        } else if d == 331 {
        } else if d == 332 {
        } else if d == 333 {
        } else if d == 334 {
        } else if d == 335 {
        } else if d == 336 {
        } else if d == 337 {
        } else if d == 338 {
        } else if d == 339 {
        } else if d == 340 {
        } else if d == 341 {
        } else if d == 342 {
        } else if d == 343 {
        } else if d == 344 {
        } else if d == 345 {
        } else if d == 346 {
        } else if d == 347 {
        } else if d == 348 {
        } else if d == 349 {
        } else if d == 350 {
        } else if d == 351 {
        } else if d == 352 {
        } else if d == 353 {
        } else if d == 354 {
        } else if d == 355 {
        } else if d == 356 {
        } else if d == 357 {
        } else if d == 358 {
        } else if d == 359 {
        } else if d == 360 {
        } else if d == 361 {
        } else if d == 362 {
        } else if d == 363 {
        } else if d == 364 {
        } else if d == 365 {
        } else if d == 366 {
        } else if d == 367 {
        } else if d == 368 {
        } else if d == 369 {
        } else if d == 370 {
        } else if d == 371 {
        } else if d == 372 {
        } else if d == 373 {
        } else if d == 374 {
        } else if d == 375 {
        } else if d == 376 {
        } else if d == 377 {
        } else if d == 378 {
        } else if d == 379 {
        } else if d == 380 {
        } else if d == 381 {
        } else if d == 382 {
        } else if d == 383 {
        } else if d == 384 {
        } else if d == 385 {
        }
    }
}

/// No number from 386 to 449 divides 859267.
proof fn lemma_undivided_859267_part_7()
    ensures
        forall|d: nat| 386 <= d <= 449 ==> #[trigger] (859267nat % d) != 0,
{
    assert forall|d: nat| 386 <= d <= 449 implies #[trigger] (859267nat % d) != 0 by {
        if d == 386 {
        } else if d == 387 {
        } else if d == 388 {
        } else if d == 389 {
        } else if d == 390 {
        } else if d == 391 {
        } else if d == 392 {
        } else if d == 393 {
        } else if d == 394 {
        } else if d == 395 {
        } else if d == 396 {
        } else if d == 397 {
        } else if d == 398 {
        } else if d == 399 {
        } else if d == 400 {
        } else if d == 401 {
        } else if d == 402 {
        } else if d == 403 {
        } else if d == 404 {
        } else if d == 405 {
        } else if d == 406 {
        } else if d == 407 {
        } else if d == 408 {
        } else if d == 409 {
        } else if d == 410 {
        } else if d == 411 {
        } else if d == 412 {
        } else if d == 413 {
        } else if d == 414 {
        } else if d == 415 {
        } else if d == 416 {
        } else if d == 417 {
        } else if d == 418 {
        } else if d == 419 {
        } else if d == 420 {
        } else if d == 421 {
        } else if d == 422 {
        } else if d == 423 {
        } else if d == 424 {
        } else if d == 425 {
        } else if d == 426 {
        } else if d == 427 {
        } else if d == 428 {
        } else if d == 429 {
        } else if d == 430 {
        } else if d == 431 {
        } else if d == 432 {
        } else if d == 433 {
        } else if d == 434 {
        } else if d == 435 {
        } else if d == 436 {
        } else if d == 437 {
        } else if d == 438 {
        } else if d == 439 {
        } else if d == 440 {
        } else if d == 441 {
        } else if d == 442 {
        } else if d == 443 {
        } else if d == 444 {
        } else if d == 445 {
        } else if d == 446 {
        } else if d == 447 {
        } else if d == 448 {
        } else if d == 449 {
        }
    }
}

/// No number from 450 to 513 divides 859267.
proof fn lemma_undivided_859267_part_8()
    ensures
        forall|d: nat| 450 <= d <= 513 ==> #[trigger] (859267nat % d) != 0,
{
    assert forall|d: nat| 450 <= d <= 513 implies #[trigger] (859267nat % d) != 0 by {
        if d == 450 {
        } else if d == 451 {
        } else if d == 452 {
        } else if d == 453 {
        } else if d == 454 {
        } else if d == 455 {
        } else if d == 456 {
        } else if d == 457 {
        } else if d == 458 {
        } else if d == 459 {
        } else if d == 460 {
        } else if d == 461 {
        } else if d == 462 {
        } else if d == 463 {
        } else if d == 464 {
        } else if d == 465 {
        } else if d == 466 {
        } else if d == 467 {
        } else if d == 468 {
        } else if d == 469 {
        } else if d == 470 {
        } else if d == 471 {
        } else if d == 472 {
        } else if d == 473 {
        } else if d == 474 {
        } else if d == 475 {
        } else if d == 476 {
        } else if d == 477 {
        } else if d == 478 {
        } else if d == 479 {
        } else if d == 480 {
        } else if d == 481 {
        } else if d == 482 {
        } else if d == 483 {
        } else if d == 484 {
        } else if d == 485 {
        } else if d == 486 {
        } else if d == 487 {
        } else if d == 488 {
        } else if d == 489 {
        } else if d == 490 {
        } else if d == 491 {
        } else if d == 492 {
        } else if d == 493 {
        } else if d == 494 {
        } else if d == 495 {
        } else if d == 496 {
        } else if d == 497 {
        } else if d == 498 {
        } else if d == 499 {
        } else if d == 500 {
        } else if d == 501 {
        } else if d == 502 {
        } else if d == 503 {
        } else if d == 504 {
        } else if d == 505 {
        } else if d == 506 {
        } else if d == 507 {
        } else if d == 508 {
        } else if d == 509 {
        } else if d == 510 {
        } else if d == 511 {
        } else if d == 512 {
        } else if d == 513 {
        }
    }
}

/// No number from 514 to 577 divides 859267.
proof fn lemma_undivided_859267_part_9()
    ensures
        forall|d: nat| 514 <= d <= 577 ==> #[trigger] (859267nat % d) != 0,
{
    assert forall|d: nat| 514 <= d <= 577 implies #[trigger] (859267nat % d) != 0 by {
        if d == 514 {
        } else if d == 515 {
        } else if d == 516 {
        } else if d == 517 {
        } else if d == 518 {
        } else if d == 519 {
        } else if d == 520 {
        } else if d == 521 {
        } else if d == 522 {
        } else if d == 523 {
        } else if d == 524 {
        } else if d == 525 {
        } else if d == 526 {
        } else if d == 527 {
        } else if d == 528 {
        } else if d == 529 {
        } else if d == 530 {
        } else if d == 531 {
        } else if d == 532 {
        } else if d == 533 {
        } else if d == 534 {
        } else if d == 535 {
        } else if d == 536 {
        } else if d == 537 {
        } else if d == 538 {
        } else if d == 539 {
        } else if d == 540 {
        } else if d == 541 {
        } else if d == 542 {
        } else if d == 543 {
        } else if d == 544 {
        } else if d == 545 {
        } else if d == 546 {
        } else if d == 547 {
        } else if d == 548 {
        } else if d == 549 {
        } else if d == 550 {
        } else if d == 551 {
        } else if d == 552 {
        } else if d == 553 {
        } else if d == 554 {
        } else if d == 555 {
        } else if d == 556 {
        } else if d == 557 {
        } else if d == 558 {
        } else if d == 559 {
        } else if d == 560 {
        } else if d == 561 {
        } else if d == 562 {
        } else if d == 563 {
        } else if d == 564 {
        } else if d == 565 {
        } else if d == 566 {
        } else if d == 567 {
        } else if d == 568 {
        } else if d == 569 {
        } else if d == 570 {
        } else if d == 571 {
        } else if d == 572 {
        } else if d == 573 {
        } else if d == 574 {
        } else if d == 575 {
        } else if d == 576 {
        } else if d == 577 {
        }
    }
}

/// No number from 578 to 641 divides 859267.
proof fn lemma_undivided_859267_part_10()
    ensures
        forall|d: nat| 578 <= d <= 641 ==> #[trigger] (859267nat % d) != 0,
{
    assert forall|d: nat| 578 <= d <= 641 implies #[trigger] (859267nat % d) != 0 by {
        if d == 578 {
        } else if d == 579 {
        } else if d == 580 {
        } else if d == 581 {
        } else if d == 582 {
        } else if d == 583 {
        } else if d == 584 {
        } else if d == 585 {
        } else if d == 586 {
        } else if d == 587 {
        } else if d == 588 {
        } else if d == 589 {
        } else if d == 590 {
        } else if d == 591 {
        } else if d == 592 {
        } else if d == 593 {
        } else if d == 594 {
        } else if d == 595 {
        } else if d == 596 {
        } else if d == 597 {
        } else if d == 598 {
        } else if d == 599 {
        } else if d == 600 {
        } else if d == 601 {
        } else if d == 602 {
        } else if d == 603 {
        } else if d == 604 {
        } else if d == 605 {
        } else if d == 606 {
        } else if d == 607 {
        } else if d == 608 {
        } else if d == 609 {
        } else if d == 610 {
        } else if d == 611 {
        } else if d == 612 {
        } else if d == 613 {
        } else if d == 614 {
        } else if d == 615 {
        } else if d == 616 {
        } else if d == 617 {
        } else if d == 618 {
        } else if d == 619 {
        } else if d == 620 {
        } else if d == 621 {
        } else if d == 622 {
        } else if d == 623 {
        } else if d == 624 {
        } else if d == 625 {
        } else if d == 626 {
        } else if d == 627 {
        } else if d == 628 {
        } else if d == 629 {
        } else if d == 630 {
        } else if d == 631 {
        } else if d == 632 {
        } else if d == 633 {
        } else if d == 634 {
        } else if d == 635 {
        } else if d == 636 {
        } else if d == 637 {
        } else if d == 638 {
        } else if d == 639 {
        } else if d == 640 {
        } else if d == 641 {
        }
    }
}

/// No number from 642 to 705 divides 859267.
proof fn lemma_undivided_859267_part_11()
    ensures
        forall|d: nat| 642 <= d <= 705 ==> #[trigger] (859267nat % d) != 0,
{
    assert forall|d: nat| 642 <= d <= 705 implies #[trigger] (859267nat % d) != 0 by {
        if d == 642 {
        } else if d == 643 {
        } else if d == 644 {
        } else if d == 645 {
        } else if d == 646 {
        } else if d == 647 {
        } else if d == 648 {
        } else if d == 649 {
        } else if d == 650 {
        } else if d == 651 {
        } else if d == 652 {
        } else if d == 653 {
        } else if d == 654 {
        } else if d == 655 {
        } else if d == 656 {
        } else if d == 657 {
        } else if d == 658 {
        } else if d == 659 {
        } else if d == 660 {
        } else if d == 661 {
        } else if d == 662 {
        } else if d == 663 {
        } else if d == 664 {
        } else if d == 665 {
        } else if d == 666 {
        } else if d == 667 {
        } else if d == 668 {
        } else if d == 669 {
        } else if d == 670 {
        } else if d == 671 {
        } else if d == 672 {
        } else if d == 673 {
        } else if d == 674 {
        } else if d == 675 {
        } else if d == 676 {
        } else if d == 677 {
        } else if d == 678 {
        } else if d == 679 {
        } else if d == 680 {
        } else if d == 681 {
        } else if d == 682 {
        } else if d == 683 {
        } else if d == 684 {
        } else if d == 685 {
        } else if d == 686 {
        } else if d == 687 {
        } else if d == 688 {
        } else if d == 689 {
        } else if d == 690 {
        } else if d == 691 {
        } else if d == 692 {
        } else if d == 693 {
        } else if d == 694 {
        } else if d == 695 {
        } else if d == 696 {
        } else if d == 697 {
        } else if d == 698 {
        } else if d == 699 {
        } else if d == 700 {
        } else if d == 701 {
        } else if d == 702 {
        } else if d == 703 {
        } else if d == 704 {
        } else if d == 705 {
        }
    }
}

/// No number from 706 to 769 divides 859267.
proof fn lemma_undivided_859267_part_12()
    ensures
        forall|d: nat| 706 <= d <= 769 ==> #[trigger] (859267nat % d) != 0,
{
    assert forall|d: nat| 706 <= d <= 769 implies #[trigger] (859267nat % d) != 0 by {
        if d == 706 {
        } else if d == 707 {
        } else if d == 708 {
        } else if d == 709 {
        } else if d == 710 {
        } else if d == 711 {
        } else if d == 712 {
        } else if d == 713 {
        } else if d == 714 {
        } else if d == 715 {
        } else if d == 716 {
        } else if d == 717 {
        } else if d == 718 {
        } else if d == 719 {
        } else if d == 720 {
        } else if d == 721 {
        } else if d == 722 {
        } else if d == 723 {
        } else if d == 724 {
        } else if d == 725 {
        } else if d == 726 {
        } else if d == 727 {
        } else if d == 728 {
        } else if d == 729 {
        } else if d == 730 {
        } else if d == 731 {
        } else if d == 732 {
        } else if d == 733 {
        } else if d == 734 {
        } else if d == 735 {
        } else if d == 736 {
        } else if d == 737 {
        } else if d == 738 {
        } else if d == 739 {
        } else if d == 740 {
        } else if d == 741 {
        } else if d == 742 {
        } else if d == 743 {
        } else if d == 744 {
        } else if d == 745 {
        } else if d == 746 {
        } else if d == 747 {
        } else if d == 748 {
        } else if d == 749 {
        } else if d == 750 {
        } else if d == 751 {
        } else if d == 752 {
        } else if d == 753 {
        } else if d == 754 {
        } else if d == 755 {
        } else if d == 756 {
        } else if d == 757 {
        } else if d == 758 {
        } else if d == 759 {
        } else if d == 760 {
        } else if d == 761 {
        } else if d == 762 {
        } else if d == 763 {
        } else if d == 764 {
        } else if d == 765 {
        } else if d == 766 {
        } else if d == 767 {
        } else if d == 768 {
        } else if d == 769 {
        }
    }
}

/// No number from 770 to 833 divides 859267.
proof fn lemma_undivided_859267_part_13()
    ensures
        forall|d: nat| 770 <= d <= 833 ==> #[trigger] (859267nat % d) != 0,
{
    assert forall|d: nat| 770 <= d <= 833 implies #[trigger] (859267nat % d) != 0 by {
        if d == 770 {
        } else if d == 771 {
        } else if d == 772 {
        } else if d == 773 {
        } else if d == 774 {
        } else if d == 775 {
        } else if d == 776 {
        } else if d == 777 {
        } else if d == 778 {
        } else if d == 779 {
        } else if d == 780 {
        } else if d == 781 {
        } else if d == 782 {
        } else if d == 783 {
        } else if d == 784 {
        } else if d == 785 {
        } else if d == 786 {
        } else if d == 787 {
        } else if d == 788 {
        } else if d == 789 {
        } else if d == 790 {
        } else if d == 791 {
        } else if d == 792 {
        } else if d == 793 {
        } else if d == 794 {
        } else if d == 795 {
        } else if d == 796 {
        } else if d == 797 {
        } else if d == 798 {
        } else if d == 799 {
        } else if d == 800 {
        } else if d == 801 {
        } else if d == 802 {
        } else if d == 803 {
        } else if d == 804 {
        } else if d == 805 {
        } else if d == 806 {
        } else if d == 807 {
        } else if d == 808 {
        } else if d == 809 {
        } else if d == 810 {
        } else if d == 811 {
        } else if d == 812 {
        } else if d == 813 {
        } else if d == 814 {
        } else if d == 815 {
        } else if d == 816 {
        } else if d == 817 {
        } else if d == 818 {
        } else if d == 819 {
        } else if d == 820 {
        } else if d == 821 {
        } else if d == 822 {
        } else if d == 823 {
        } else if d == 824 {
        } else if d == 825 {
        } else if d == 826 {
        } else if d == 827 {
        } else if d == 828 {
        } else if d == 829 {
        } else if d == 830 {
        } else if d == 831 {
        } else if d == 832 {
        } else if d == 833 {
        }
    }
}

/// No number from 834 to 897 divides 859267.
proof fn lemma_undivided_859267_part_14()
    ensures
        forall|d: nat| 834 <= d <= 897 ==> #[trigger] (859267nat % d) != 0,
{
    assert forall|d: nat| 834 <= d <= 897 implies #[trigger] (859267nat % d) != 0 by {
        if d == 834 {
        } else if d == 835 {
        } else if d == 836 {
        } else if d == 837 {
        } else if d == 838 {
        } else if d == 839 {
        } else if d == 840 {
        } else if d == 841 {
        } else if d == 842 {
        } else if d == 843 {
        } else if d == 844 {
        } else if d == 845 {
        } else if d == 846 {
        } else if d == 847 {
        } else if d == 848 {
        } else if d == 849 {
        } else if d == 850 {
        } else if d == 851 {
        } else if d == 852 {
        } else if d == 853 {
        } else if d == 854 {
        } else if d == 855 {
        } else if d == 856 {
        } else if d == 857 {
        } else if d == 858 {
        } else if d == 859 {
        } else if d == 860 {
        } else if d == 861 {
        } else if d == 862 {
        } else if d == 863 {
        } else if d == 864 {
        } else if d == 865 {
        } else if d == 866 {
        } else if d == 867 {
        } else if d == 868 {
        } else if d == 869 {
        } else if d == 870 {
        } else if d == 871 {
        } else if d == 872 {
        } else if d == 873 {
        } else if d == 874 {
        } else if d == 875 {
        } else if d == 876 {
        } else if d == 877 {
        } else if d == 878 {
        } else if d == 879 {
        } else if d == 880 {
        } else if d == 881 {
        } else if d == 882 {
        } else if d == 883 {
        } else if d == 884 {
        } else if d == 885 {
        } else if d == 886 {
        } else if d == 887 {
        } else if d == 888 {
        } else if d == 889 {
        } else if d == 890 {
        } else if d == 891 {
        } else if d == 892 {
        } else if d == 893 {
        } else if d == 894 {
        } else if d == 895 {
        } else if d == 896 {
        } else if d == 897 {
        }
    }
}

/// No number from 898 to 926 divides 859267.
proof fn lemma_undivided_859267_part_15()
    ensures
        forall|d: nat| 898 <= d <= 926 ==> #[trigger] (859267nat % d) != 0,
{
    assert forall|d: nat| 898 <= d <= 926 implies #[trigger] (859267nat % d) != 0 by {
        if d == 898 {
        } else if d == 899 {
        } else if d == 900 {
        } else if d == 901 {
        } else if d == 902 {
        } else if d == 903 {
        } else if d == 904 {
        } else if d == 905 {
        } else if d == 906 {
        } else if d == 907 {
        } else if d == 908 {
        } else if d == 909 {
        } else if d == 910 {
        } else if d == 911 {
        } else if d == 912 {
        } else if d == 913 {
        } else if d == 914 {
        } else if d == 915 {
        } else if d == 916 {
        } else if d == 917 {
        } else if d == 918 {
        } else if d == 919 {
        } else if d == 920 {
        } else if d == 921 {
        } else if d == 922 {
        } else if d == 923 {
        } else if d == 924 {
        } else if d == 925 {
        } else if d == 926 {
        }
    }
}

/// 859267 is prime: no number from 2 to 926 divides it, and the square of 927
/// exceeds it.
pub proof fn lemma_prime_859267()
    ensures
        is_prime(859267),
{
    lemma_undivided_859267_part_1();
    lemma_undivided_859267_part_2();
    lemma_undivided_859267_part_3();
    lemma_undivided_859267_part_4();
    lemma_undivided_859267_part_5();
    lemma_undivided_859267_part_6();
    lemma_undivided_859267_part_7();
    lemma_undivided_859267_part_8();
    lemma_undivided_859267_part_9();
    lemma_undivided_859267_part_10();
    lemma_undivided_859267_part_11();
    lemma_undivided_859267_part_12();
    lemma_undivided_859267_part_13();
    lemma_undivided_859267_part_14();
    lemma_undivided_859267_part_15();
    assert(859267 < (926 + 1) * (926 + 1)) by (nonlinear_arith);
    lemma_trial_division(859267, 926);
}

/// No number from 2 to 65 divides 906349.
proof fn lemma_undivided_906349_part_1()
    ensures
        forall|d: nat| 2 <= d <= 65 ==> #[trigger] (906349nat % d) != 0,
{
    assert forall|d: nat| 2 <= d <= 65 implies #[trigger] (906349nat % d) != 0 by {
        if d == 2 {
        } else if d == 3 {
        } else if d == 4 {
        } else if d == 5 {
        } else if d == 6 {
        } else if d == 7 {
        } else if d == 8 {
        } else if d == 9 {
        } else if d == 10 {
        } else if d == 11 {
        } else if d == 12 {
        } else if d == 13 {
        } else if d == 14 {
        } else if d == 15 {
        } else if d == 16 {
        } else if d == 17 {
        } else if d == 18 {
        } else if d == 19 {
        } else if d == 20 {
        } else if d == 21 {
        } else if d == 22 {
        } else if d == 23 {
        } else if d == 24 {
        } else if d == 25 {
        } else if d == 26 {
        } else if d == 27 {
        } else if d == 28 {
        } else if d == 29 {
        } else if d == 30 {
        } else if d == 31 {
        } else if d == 32 {
        } else if d == 33 {
        } else if d == 34 {
        } else if d == 35 {
        } else if d == 36 {
        } else if d == 37 {
        } else if d == 38 {
        } else if d == 39 {
        } else if d == 40 {
        } else if d == 41 {
        } else if d == 42 {
        } else if d == 43 {
        } else if d == 44 {
        } else if d == 45 {
        } else if d == 46 {
        } else if d == 47 {
        } else if d == 48 {
        } else if d == 49 {
        } else if d == 50 {
        } else if d == 51 {
        } else if d == 52 {
        } else if d == 53 {
        } else if d == 54 {
        } else if d == 55 {
        } else if d == 56 {
        } else if d == 57 {
        } else if d == 58 {
        } else if d == 59 {
        } else if d == 60 {
        } else if d == 61 {
        } else if d == 62 {
        } else if d == 63 {
        } else if d == 64 {
        } else if d == 65 {
        }
    }
}

/// No number from 66 to 129 divides 906349.
proof fn lemma_undivided_906349_part_2()
    ensures
        forall|d: nat| 66 <= d <= 129 ==> #[trigger] (906349nat % d) != 0,
{
    assert forall|d: nat| 66 <= d <= 129 implies #[trigger] (906349nat % d) != 0 by {
        if d == 66 {
        } else if d == 67 {
        } else if d == 68 {
        } else if d == 69 {
        } else if d == 70 {
        } else if d == 71 {
        } else if d == 72 {
        } else if d == 73 {
        } else if d == 74 {
        } else if d == 75 {
        } else if d == 76 {
        } else if d == 77 {
        } else if d == 78 {
        } else if d == 79 {
        } else if d == 80 {
        } else if d == 81 {
        } else if d == 82 {
        } else if d == 83 {
        } else if d == 84 {
        } else if d == 85 {
        } else if d == 86 {
        } else if d == 87 {
        } else if d == 88 {
        } else if d == 89 {
        } else if d == 90 {
        } else if d == 91 {
        } else if d == 92 {
        } else if d == 93 {
        } else if d == 94 {
        } else if d == 95 {
        } else if d == 96 {
        } else if d == 97 {
        } else if d == 98 {
        } else if d == 99 {
        } else if d == 100 {
        } else if d == 101 {
        } else if d == 102 {
        } else if d == 103 {
        } else if d == 104 {
        } else if d == 105 {
        } else if d == 106 {
        } else if d == 107 {
        } else if d == 108 {
        } else if d == 109 {
        } else if d == 110 {
        } else if d == 111 {
        } else if d == 112 {
        } else if d == 113 {
        } else if d == 114 {
        } else if d == 115 {
        } else if d == 116 {
        } else if d == 117 {
        } else if d == 118 {
        } else if d == 119 {
        } else if d == 120 {
        } else if d == 121 {
        } else if d == 122 {
        } else if d == 123 {
        } else if d == 124 {
        } else if d == 125 {
        } else if d == 126 {
        } else if d == 127 {
        } else if d == 128 {
        } else if d == 129 {
        }
    }
}

/// No number from 130 to 193 divides 906349.
proof fn lemma_undivided_906349_part_3()
    ensures
        forall|d: nat| 130 <= d <= 193 ==> #[trigger] (906349nat % d) != 0,
{
    assert forall|d: nat| 130 <= d <= 193 implies #[trigger] (906349nat % d) != 0 by {
        if d == 130 {
        } else if d == 131 {
        } else if d == 132 {
        } else if d == 133 {
        } else if d == 134 {
        } else if d == 135 {
        } else if d == 136 {
        } else if d == 137 {
        } else if d == 138 {
        } else if d == 139 {
        } else if d == 140 {
        } else if d == 141 {
        } else if d == 142 {
        } else if d == 143 {
        } else if d == 144 {
        } else if d == 145 {
        } else if d == 146 {
        } else if d == 147 {
        } else if d == 148 {
        } else if d == 149 {
        } else if d == 150 {
        } else if d == 151 {
        } else if d == 152 {
        } else if d == 153 {
        } else if d == 154 {
        } else if d == 155 {
        } else if d == 156 {
        } else if d == 157 {
        } else if d == 158 {
        } else if d == 159 {
        } else if d == 160 {
        } else if d == 161 {
        } else if d == 162 {
        } else if d == 163 {
        } else if d == 164 {
        } else if d == 165 {
        } else if d == 166 {
        } else if d == 167 {
        } else if d == 168 {
        } else if d == 169 {
        } else if d == 170 {
        } else if d == 171 {
        } else if d == 172 {
        } else if d == 173 {
        } else if d == 174 {
        } else if d == 175 {
        } else if d == 176 {
        } else if d == 177 {
        } else if d == 178 {
        } else if d == 179 {
        } else if d == 180 {
        } else if d == 181 {
        } else if d == 182 {
        } else if d == 183 {
        } else if d == 184 {
        } else if d == 185 {
        } else if d == 186 {
        } else if d == 187 {
        } else if d == 188 {
        } else if d == 189 {
        } else if d == 190 {
        } else if d == 191 {
        } else if d == 192 {
        } else if d == 193 {
        }
    }
}

/// No number from 194 to 257 divides 906349.
proof fn lemma_undivided_906349_part_4()
    ensures
        forall|d: nat| 194 <= d <= 257 ==> #[trigger] (906349nat % d) != 0,
{
    assert forall|d: nat| 194 <= d <= 257 implies #[trigger] (906349nat % d) != 0 by {
        if d == 194 {
        } else if d == 195 {
        } else if d == 196 {
        } else if d == 197 {
        } else if d == 198 {
        } else if d == 199 {
        } else if d == 200 {
        } else if d == 201 {
        } else if d == 202 {
        } else if d == 203 {
        } else if d == 204 {
        } else if d == 205 {
        } else if d == 206 {
        } else if d == 207 {
        } else if d == 208 {
        } else if d == 209 {
        } else if d == 210 {
        } else if d == 211 {
        } else if d == 212 {
        } else if d == 213 {
        } else if d == 214 {
        } else if d == 215 {
        } else if d == 216 {
        } else if d == 217 {
        } else if d == 218 {
        } else if d == 219 {
        } else if d == 220 {
        } else if d == 221 {
        } else if d == 222 {
        } else if d == 223 {
        } else if d == 224 {
        } else if d == 225 {
        } else if d == 226 {
        } else if d == 227 {
        } else if d == 228 {
        } else if d == 229 {
        } else if d == 230 {
        } else if d == 231 {
        } else if d == 232 {
        } else if d == 233 {
        } else if d == 234 {
        } else if d == 235 {
        } else if d == 236 {
        } else if d == 237 {
        } else if d == 238 {
        } else if d == 239 {
        } else if d == 240 {
        } else if d == 241 {
        } else if d == 242 {
        } else if d == 243 {
        } else if d == 244 {
        } else if d == 245 {
        } else if d == 246 {
        } else if d == 247 {
        } else if d == 248 {
        } else if d == 249 {
        } else if d == 250 {
        } else if d == 251 {
        } else if d == 252 {
        } else if d == 253 {
        } else if d == 254 {
        } else if d == 255 {
        } else if d == 256 {
        } else if d == 257 {
        }
    }
}

/// No number from 258 to 321 divides 906349.
proof fn lemma_undivided_906349_part_5()
    ensures
        forall|d: nat| 258 <= d <= 321 ==> #[trigger] (906349nat % d) != 0,
{
    assert forall|d: nat| 258 <= d <= 321 implies #[trigger] (906349nat % d) != 0 by {
        if d == 258 {
        } else if d == 259 {
        } else if d == 260 {
        } else if d == 261 {
        } else if d == 262 {
        } else if d == 263 {
        } else if d == 264 {
        } else if d == 265 {
        } else if d == 266 {
        } else if d == 267 {
        } else if d == 268 {
        } else if d == 269 {
        } else if d == 270 {
        } else if d == 271 {
        } else if d == 272 {
        } else if d == 273 {
        } else if d == 274 {
        } else if d == 275 {
        } else if d == 276 {
        } else if d == 277 {
        } else if d == 278 {
        } else if d == 279 {
        } else if d == 280 {
        } else if d == 281 {
        } else if d == 282 {
        } else if d == 283 {
        } else if d == 284 {
        } else if d == 285 {
        } else if d == 286 {
        } else if d == 287 {
        } else if d == 288 {
        } else if d == 289 {
        } else if d == 290 {
        } else if d == 291 {
        } else if d == 292 {
        } else if d == 293 {
        } else if d == 294 {
        } else if d == 295 {
        } else if d == 296 {
        } else if d == 297 {
        } else if d == 298 {
        } else if d == 299 {
        } else if d == 300 {
        } else if d == 301 {
        } else if d == 302 {
        } else if d == 303 {
        } else if d == 304 {
        } else if d == 305 {
        } else if d == 306 {
        } else if d == 307 {
        } else if d == 308 {
        } else if d == 309 {
        } else if d == 310 {
        } else if d == 311 {
        } else if d == 312 {
        } else if d == 313 {
        } else if d == 314 {
        } else if d == 315 {
        } else if d == 316 {
        } else if d == 317 {
        } else if d == 318 {
        } else if d == 319 {
        } else if d == 320 {
        } else if d == 321 {
        }
    }
}

/// No number from 322 to 385 divides 906349.
proof fn lemma_undivided_906349_part_6()
    ensures
        forall|d: nat| 322 <= d <= 385 ==> #[trigger] (906349nat % d) != 0,
{
    assert forall|d: nat| 322 <= d <= 385 implies #[trigger] (906349nat % d) != 0 by {
        if d == 322 {
        } else if d == 323 {
        } else if d == 324 {
        } else if d == 325 {
        } else if d == 326 {
        } else if d == 327 {
        } else if d == 328 {
        } else if d == 329 {
        } else if d == 330 {
        } else if d == 331 {
        } else if d == 332 {
        } else if d == 333 {
        } else if d == 334 {
        } else if d == 335 {
        } else if d == 336 {
        } else if d == 337 {
        } else if d == 338 {
        } else if d == 339 {
        } else if d == 340 {
        } else if d == 341 {
        } else if d == 342 {
        } else if d == 343 {
        } else if d == 344 {
        } else if d == 345 {
        } else if d == 346 {
        } else if d == 347 {
        } else if d == 348 {
        } else if d == 349 {
        } else if d == 350 {
        } else if d == 351 {
        } else if d == 352 {
        } else if d == 353 {
        } else if d == 354 {
        } else if d == 355 {
        } else if d == 356 {
        } else if d == 357 {
        } else if d == 358 {
        } else if d == 359 {
        } else if d == 360 {
        } else if d == 361 {
        } else if d == 362 {
        } else if d == 363 {
        } else if d == 364 {
        } else if d == 365 {
        } else if d == 366 {
        } else if d == 367 {
        } else if d == 368 {
        } else if d == 369 {
        } else if d == 370 {
        } else if d == 371 {
        } else if d == 372 {
        } else if d == 373 {
        } else if d == 374 {
        } else if d == 375 {
        } else if d == 376 {
        } else if d == 377 {
        } else if d == 378 {
        } else if d == 379 {
        } else if d == 380 {
        } else if d == 381 {
        } else if d == 382 {
        } else if d == 383 {
        } else if d == 384 {
        } else if d == 385 {
        }
    }
}

/// No number from 386 to 449 divides 906349.
proof fn lemma_undivided_906349_part_7()
    ensures
        forall|d: nat| 386 <= d <= 449 ==> #[trigger] (906349nat % d) != 0,
{
    assert forall|d: nat| 386 <= d <= 449 implies #[trigger] (906349nat % d) != 0 by {
        if d == 386 {
        } else if d == 387 {
        } else if d == 388 {
        } else if d == 389 {
        } else if d == 390 {
        } else if d == 391 {
        } else if d == 392 {
        } else if d == 393 {
        } else if d == 394 {
        } else if d == 395 {
        } else if d == 396 {
        } else if d == 397 {
        } else if d == 398 {
        } else if d == 399 {
        } else if d == 400 {
        } else if d == 401 {
        } else if d == 402 {
        } else if d == 403 {
        } else if d == 404 {
        } else if d == 405 {
        } else if d == 406 {
        } else if d == 407 {
        } else if d == 408 {
        } else if d == 409 {
        } else if d == 410 {
        } else if d == 411 {
        } else if d == 412 {
        } else if d == 413 {
        } else if d == 414 {
        } else if d == 415 {
        } else if d == 416 {
        } else if d == 417 {
        } else if d == 418 {
        } else if d == 419 {
        } else if d == 420 {
        } else if d == 421 {
        } else if d == 422 {
        } else if d == 423 {
        } else if d == 424 {
        } else if d == 425 {
        } else if d == 426 {
        } else if d == 427 {
        } else if d == 428 {
        } else if d == 429 {
        } else if d == 430 {
        } else if d == 431 {
        } else if d == 432 {
        } else if d == 433 {
        } else if d == 434 {
        } else if d == 435 {
        } else if d == 436 {
        } else if d == 437 {
        } else if d == 438 {
        } else if d == 439 {
        } else if d == 440 {
        } else if d == 441 {
        } else if d == 442 {
        } else if d == 443 {
        } else if d == 444 {
        } else if d == 445 {
        } else if d == 446 {
        } else if d == 447 {
        } else if d == 448 {
        } else if d == 449 {
        }
    }
}

/// No number from 450 to 513 divides 906349.
proof fn lemma_undivided_906349_part_8()
    ensures
        forall|d: nat| 450 <= d <= 513 ==> #[trigger] (906349nat % d) != 0,
{
    assert forall|d: nat| 450 <= d <= 513 implies #[trigger] (906349nat % d) != 0 by {
        if d == 450 {
        } else if d == 451 {
        } else if d == 452 {
        } else if d == 453 {
        } else if d == 454 {
        } else if d == 455 {
        } else if d == 456 {
        } else if d == 457 {
        } else if d == 458 {
        } else if d == 459 {
        } else if d == 460 {
        } else if d == 461 {
        } else if d == 462 {
        } else if d == 463 {
        } else if d == 464 {
        } else if d == 465 {
        } else if d == 466 {
        } else if d == 467 {
        } else if d == 468 {
        } else if d == 469 {
        } else if d == 470 {
        } else if d == 471 {
        } else if d == 472 {
        } else if d == 473 {
        } else if d == 474 {
        } else if d == 475 {
        } else if d == 476 {
        } else if d == 477 {
        } else if d == 478 {
        } else if d == 479 {
        } else if d == 480 {
        } else if d == 481 {
        } else if d == 482 {
        } else if d == 483 {
        } else if d == 484 {
        } else if d == 485 {
        } else if d == 486 {
        } else if d == 487 {
        } else if d == 488 {
        } else if d == 489 {
        } else if d == 490 {
        } else if d == 491 {
        } else if d == 492 {
        } else if d == 493 {
        } else if d == 494 {
        } else if d == 495 {
        } else if d == 496 {
        } else if d == 497 {
        } else if d == 498 {
        } else if d == 499 {
        } else if d == 500 {
        } else if d == 501 {
        } else if d == 502 {
        } else if d == 503 {
        } else if d == 504 {
        } else if d == 505 {
        } else if d == 506 {
        } else if d == 507 {
        } else if d == 508 {
        } else if d == 509 {
        } else if d == 510 {
        } else if d == 511 {
        } else if d == 512 {
        } else if d == 513 {
        }
    }
}

/// No number from 514 to 577 divides 906349.
proof fn lemma_undivided_906349_part_9()
    ensures
        forall|d: nat| 514 <= d <= 577 ==> #[trigger] (906349nat % d) != 0,
{
    assert forall|d: nat| 514 <= d <= 577 implies #[trigger] (906349nat % d) != 0 by {
        if d == 514 {
        } else if d == 515 {
        } else if d == 516 {
        } else if d == 517 {
        } else if d == 518 {
        } else if d == 519 {
        } else if d == 520 {
        } else if d == 521 {
        } else if d == 522 {
        } else if d == 523 {
        } else if d == 524 {
        } else if d == 525 {
        } else if d == 526 {
        } else if d == 527 {
        } else if d == 528 {
        } else if d == 529 {
        } else if d == 530 {
        } else if d == 531 {
        } else if d == 532 {
        } else if d == 533 {
        } else if d == 534 {
        } else if d == 535 {
        } else if d == 536 {
        } else if d == 537 {
        } else if d == 538 {
        } else if d == 539 {
        } else if d == 540 {
        } else if d == 541 {
        } else if d == 542 {
        } else if d == 543 {
        } else if d == 544 {
        } else if d == 545 {
        } else if d == 546 {
        } else if d == 547 {
        } else if d == 548 {
        } else if d == 549 {
        } else if d == 550 {
        } else if d == 551 {
        } else if d == 552 {
        } else if d == 553 {
        } else if d == 554 {
        } else if d == 555 {
        } else if d == 556 {
        } else if d == 557 {
        } else if d == 558 {
        } else if d == 559 {
        } else if d == 560 {
        } else if d == 561 {
        } else if d == 562 {
        } else if d == 563 {
        } else if d == 564 {
        } else if d == 565 {
        } else if d == 566 {
        } else if d == 567 {
        } else if d == 568 {
        } else if d == 569 {
        } else if d == 570 {
        } else if d == 571 {
        } else if d == 572 {
        } else if d == 573 {
        } else if d == 574 {
        } else if d == 575 {
        } else if d == 576 {
        } else if d == 577 {
        }
    }
}

/// No number from 578 to 641 divides 906349.
proof fn lemma_undivided_906349_part_10()
    ensures
        forall|d: nat| 578 <= d <= 641 ==> #[trigger] (906349nat % d) != 0,
{
    assert forall|d: nat| 578 <= d <= 641 implies #[trigger] (906349nat % d) != 0 by {
        if d == 578 {
        } else if d == 579 {
        } else if d == 580 {
        } else if d == 581 {
        } else if d == 582 {
        } else if d == 583 {
        } else if d == 584 {
        } else if d == 585 {
        } else if d == 586 {
        } else if d == 587 {
        } else if d == 588 {
        } else if d == 589 {
        } else if d == 590 {
        } else if d == 591 {
        } else if d == 592 {
        } else if d == 593 {
        } else if d == 594 {
        } else if d == 595 {
        } else if d == 596 {
        } else if d == 597 {
        } else if d == 598 {
        } else if d == 599 {
        } else if d == 600 {
        } else if d == 601 {
        } else if d == 602 {
        } else if d == 603 {
        } else if d == 604 {
        } else if d == 605 {
        } else if d == 606 {
        } else if d == 607 {
        } else if d == 608 {
        } else if d == 609 {
        } else if d == 610 {
        } else if d == 611 {
        } else if d == 612 {
        } else if d == 613 {
        } else if d == 614 {
        } else if d == 615 {
        } else if d == 616 {
        } else if d == 617 {
        } else if d == 618 {
        } else if d == 619 {
        } else if d == 620 {
        } else if d == 621 {
        } else if d == 622 {
        } else if d == 623 {
        } else if d == 624 {
        } else if d == 625 {
        } else if d == 626 {
        } else if d == 627 {
        } else if d == 628 {
        } else if d == 629 {
        } else if d == 630 {
        } else if d == 631 {
        } else if d == 632 {
        } else if d == 633 {
        } else if d == 634 {
        } else if d == 635 {
        } else if d == 636 {
        } else if d == 637 {
        } else if d == 638 {
        } else if d == 639 {
        } else if d == 640 {
        } else if d == 641 {
        }
    }
}

/// No number from 642 to 705 divides 906349.
proof fn lemma_undivided_906349_part_11()
    ensures
        forall|d: nat| 642 <= d <= 705 ==> #[trigger] (906349nat % d) != 0,
{
    assert forall|d: nat| 642 <= d <= 705 implies #[trigger] (906349nat % d) != 0 by {
        if d == 642 {
        } else if d == 643 {
        } else if d == 644 {
        } else if d == 645 {
        } else if d == 646 {
        } else if d == 647 {
        } else if d == 648 {
        } else if d == 649 {
        } else if d == 650 {
        } else if d == 651 {
        } else if d == 652 {
        } else if d == 653 {
        } else if d == 654 {
        } else if d == 655 {
        } else if d == 656 {
        } else if d == 657 {
        } else if d == 658 {
        } else if d == 659 {
        } else if d == 660 {
        } else if d == 661 {
        } else if d == 662 {
        } else if d == 663 {
        } else if d == 664 {
        } else if d == 665 {
        } else if d == 666 {
        } else if d == 667 {
        } else if d == 668 {
        } else if d == 669 {
        } else if d == 670 {
        } else if d == 671 {
        } else if d == 672 {
        } else if d == 673 {
        } else if d == 674 {
        } else if d == 675 {
        } else if d == 676 {
        } else if d == 677 {
        } else if d == 678 {
        } else if d == 679 {
        } else if d == 680 {
        } else if d == 681 {
        } else if d == 682 {
        } else if d == 683 {
        } else if d == 684 {
        } else if d == 685 {
        } else if d == 686 {
        } else if d == 687 {
        } else if d == 688 {
        } else if d == 689 {
        } else if d == 690 {
        } else if d == 691 {
        } else if d == 692 {
        } else if d == 693 {
        } else if d == 694 {
        } else if d == 695 {
        } else if d == 696 {
        } else if d == 697 {
        } else if d == 698 {
        } else if d == 699 {
        } else if d == 700 {
        } else if d == 701 {
        } else if d == 702 {
        } else if d == 703 {
        } else if d == 704 {
        } else if d == 705 {
        }
    }
}

/// No number from 706 to 769 divides 906349.
proof fn lemma_undivided_906349_part_12()
    ensures
        forall|d: nat| 706 <= d <= 769 ==> #[trigger] (906349nat % d) != 0,
{
    assert forall|d: nat| 706 <= d <= 769 implies #[trigger] (906349nat % d) != 0 by {
        if d == 706 {
        } else if d == 707 {
        } else if d == 708 {
        } else if d == 709 {
        } else if d == 710 {
        } else if d == 711 {
        } else if d == 712 {
        } else if d == 713 {
        } else if d == 714 {
        } else if d == 715 {
        } else if d == 716 {
        } else if d == 717 {
        } else if d == 718 {
        } else if d == 719 {
        } else if d == 720 {
        } else if d == 721 {
        } else if d == 722 {
        } else if d == 723 {
        } else if d == 724 {
        } else if d == 725 {
        } else if d == 726 {
        } else if d == 727 {
        } else if d == 728 {
        } else if d == 729 {
        } else if d == 730 {
        } else if d == 731 {
        } else if d == 732 {
        } else if d == 733 {
        } else if d == 734 {
        } else if d == 735 {
        } else if d == 736 {
        } else if d == 737 {
        } else if d == 738 {
        } else if d == 739 {
        } else if d == 740 {
        } else if d == 741 {
        } else if d == 742 {
        } else if d == 743 {
        } else if d == 744 {
        } else if d == 745 {
        } else if d == 746 {
        } else if d == 747 {
        } else if d == 748 {
        } else if d == 749 {
        } else if d == 750 {
        } else if d == 751 {
        } else if d == 752 {
        } else if d == 753 {
        } else if d == 754 {
        } else if d == 755 {
        } else if d == 756 {
        } else if d == 757 {
        } else if d == 758 {
        } else if d == 759 {
        } else if d == 760 {
        } else if d == 761 {
        } else if d == 762 {
        } else if d == 763 {
        } else if d == 764 {
        } else if d == 765 {
        } else if d == 766 {
        } else if d == 767 {
        } else if d == 768 {
        } else if d == 769 {
        }
    }
}

/// No number from 770 to 833 divides 906349.
proof fn lemma_undivided_906349_part_13()
    ensures
        forall|d: nat| 770 <= d <= 833 ==> #[trigger] (906349nat % d) != 0,
{
    assert forall|d: nat| 770 <= d <= 833 implies #[trigger] (906349nat % d) != 0 by {
        if d == 770 {
        } else if d == 771 {
        } else if d == 772 {
        } else if d == 773 {
        } else if d == 774 {
        } else if d == 775 {
        } else if d == 776 {
        } else if d == 777 {
        } else if d == 778 {
        } else if d == 779 {
        } else if d == 780 {
        } else if d == 781 {
        } else if d == 782 {
        } else if d == 783 {
        } else if d == 784 {
        } else if d == 785 {
        } else if d == 786 {
        } else if d == 787 {
        } else if d == 788 {
        } else if d == 789 {
        } else if d == 790 {
        } else if d == 791 {
        } else if d == 792 {
        } else if d == 793 {
        } else if d == 794 {
        } else if d == 795 {
        } else if d == 796 {
        } else if d == 797 {
        } else if d == 798 {
        } else if d == 799 {
        } else if d == 800 {
        } else if d == 801 {
        } else if d == 802 {
        } else if d == 803 {
        } else if d == 804 {
        } else if d == 805 {
        } else if d == 806 {
        } else if d == 807 {
        } else if d == 808 {
        } else if d == 809 {
        } else if d == 810 {
        } else if d == 811 {
        } else if d == 812 {
        } else if d == 813 {
        } else if d == 814 {
        } else if d == 815 {
        } else if d == 816 {
        } else if d == 817 {
        } else if d == 818 {
        } else if d == 819 {
        } else if d == 820 {
        } else if d == 821 {
        } else if d == 822 {
        } else if d == 823 {
        } else if d == 824 {
        } else if d == 825 {
        } else if d == 826 {
        } else if d == 827 {
        } else if d == 828 {
        } else if d == 829 {
        } else if d == 830 {
        } else if d == 831 {
        } else if d == 832 {
        } else if d == 833 {
        }
    }
}

/// No number from 834 to 897 divides 906349.
proof fn lemma_undivided_906349_part_14()
    ensures
        forall|d: nat| 834 <= d <= 897 ==> #[trigger] (906349nat % d) != 0,
{
    assert forall|d: nat| 834 <= d <= 897 implies #[trigger] (906349nat % d) != 0 by {
        if d == 834 {
        } else if d == 835 {
        } else if d == 836 {
        } else if d == 837 {
        } else if d == 838 {
        } else if d == 839 {
        } else if d == 840 {
        } else if d == 841 {
        } else if d == 842 {
        } else if d == 843 {
        } else if d == 844 {
        } else if d == 845 {
        } else if d == 846 {
        } else if d == 847 {
        } else if d == 848 {
        } else if d == 849 {
        } else if d == 850 {
        } else if d == 851 {
        } else if d == 852 {
        } else if d == 853 {
        } else if d == 854 {
        } else if d == 855 {
        } else if d == 856 {
        } else if d == 857 {
        } else if d == 858 {
        } else if d == 859 {
        } else if d == 860 {
        } else if d == 861 {
        } else if d == 862 {
        } else if d == 863 {
        } else if d == 864 {
        } else if d == 865 {
        } else if d == 866 {
        } else if d == 867 {
        } else if d == 868 {
        } else if d == 869 {
        } else if d == 870 {
        } else if d == 871 {
        } else if d == 872 {
        } else if d == 873 {
        } else if d == 874 {
        } else if d == 875 {
        } else if d == 876 {
        } else if d == 877 {
        } else if d == 878 {
        } else if d == 879 {
        } else if d == 880 {
        } else if d == 881 {
        } else if d == 882 {
        } else if d == 883 {
        } else if d == 884 {
        } else if d == 885 {
        } else if d == 886 {
        } else if d == 887 {
        } else if d == 888 {
        } else if d == 889 {
        } else if d == 890 {
        } else if d == 891 {
        } else if d == 892 {
        } else if d == 893 {
        } else if d == 894 {
        } else if d == 895 {
        } else if d == 896 {
        } else if d == 897 {
        }
    }
}

/// No number from 898 to 952 divides 906349.
proof fn lemma_undivided_906349_part_15()
    ensures
        forall|d: nat| 898 <= d <= 952 ==> #[trigger] (906349nat % d) != 0,
{
    assert forall|d: nat| 898 <= d <= 952 implies #[trigger] (906349nat % d) != 0 by {
        if d == 898 {
        } else if d == 899 {
        } else if d == 900 {
        } else if d == 901 {
        } else if d == 902 {
        } else if d == 903 {
        } else if d == 904 {
        } else if d == 905 {
        } else if d == 906 {
        } else if d == 907 {
        } else if d == 908 {
        } else if d == 909 {
        } else if d == 910 {
        } else if d == 911 {
        } else if d == 912 {
        } else if d == 913 {
        } else if d == 914 {
        } else if d == 915 {
        } else if d == 916 {
        } else if d == 917 {
        } else if d == 918 {
        } else if d == 919 {
        } else if d == 920 {
        } else if d == 921 {
        } else if d == 922 {
        } else if d == 923 {
        } else if d == 924 {
        } else if d == 925 {
        } else if d == 926 {
        } else if d == 927 {
        } else if d == 928 {
        } else if d == 929 {
        } else if d == 930 {
        } else if d == 931 {
        } else if d == 932 {
        } else if d == 933 {
        } else if d == 934 {
        } else if d == 935 {
        } else if d == 936 {
        } else if d == 937 {
        } else if d == 938 {
        } else if d == 939 {
        } else if d == 940 {
        } else if d == 941 {
        } else if d == 942 {
        } else if d == 943 {
        } else if d == 944 {
        } else if d == 945 {
        } else if d == 946 {
        } else if d == 947 {
        } else if d == 948 {
        } else if d == 949 {
        } else if d == 950 {
        } else if d == 951 {
        } else if d == 952 {
        }
    }
}

/// 906349 is prime: no number from 2 to 952 divides it, and the square of 953
/// exceeds it.
pub proof fn lemma_prime_906349()
    ensures
        is_prime(906349),
{
    lemma_undivided_906349_part_1();
    lemma_undivided_906349_part_2();
    lemma_undivided_906349_part_3();
    lemma_undivided_906349_part_4();
    lemma_undivided_906349_part_5();
    lemma_undivided_906349_part_6();
    lemma_undivided_906349_part_7();
    lemma_undivided_906349_part_8();
    lemma_undivided_906349_part_9();
    lemma_undivided_906349_part_10();
    lemma_undivided_906349_part_11();
    lemma_undivided_906349_part_12();
    lemma_undivided_906349_part_13();
    lemma_undivided_906349_part_14();
    lemma_undivided_906349_part_15();
    assert(906349 < (952 + 1) * (952 + 1)) by (nonlinear_arith);
    lemma_trial_division(906349, 952);
}

} // verus!
